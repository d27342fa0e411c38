//! A model of the device, and what the driver's operations come to on it.
//!
//! The model is a device that stores what is written to its registers and
//! answers a read with what it stores. Nothing here is compiled: the model
//! and the statements about it exist for the verifier only.

use vstd::prelude::*;
use crate::access::{
    address_of, lemma_command_fields, opcode_of, RegisterRead, RegisterWrite,
};
use crate::config::{OutputChannel, Pcm4104Config};
use crate::driver::Pcm4104;
use crate::error::Error;
use crate::registers::{
    lemma_power_down_pairs, spec_attenuation_register, spec_audio_serial_port_control,
    spec_function_control, spec_system_control, spec_with_mute, spec_with_power_down,
    AUDIO_SERIAL_PORT_CONTROL, FUNCTION_CONTROL, MAX_ADDRESS, SOFTWARE_RESET, SYSTEM_CONTROL,
};
use crate::step::Step;

verus! {

/// The device as the bus sees it.
pub struct Device {
    /// What the eight registers hold, by address.
    pub registers: Seq<u8>,
    /// What the device has on its output while it has nothing to say, as
    /// during the command byte of a read.
    pub idle: u8,
}

impl Device {
    /// The device has its eight registers.
    pub open spec fn wf(self) -> bool {
        self.registers.len() == MAX_ADDRESS + 1
    }

    /// The device after the two bytes `sent` have been clocked into it. A
    /// write command stores the second byte in the register that the
    /// command addresses; anything else leaves the registers as they are.
    pub open spec fn receive(self, sent: [u8; 2]) -> Device {
        if opcode_of(sent[0]) == 0b001 {
            Device { registers: self.registers.update(address_of(sent[0]) as int, sent[1]), ..self }
        } else {
            self
        }
    }

    /// The two bytes that the device clocks out while `sent` is clocked
    /// in. To a read command it answers, in the second byte, with what the
    /// addressed register holds.
    pub open spec fn answer(self, sent: [u8; 2]) -> [u8; 2] {
        if opcode_of(sent[0]) == 0b101 {
            [self.idle, self.registers[address_of(sent[0]) as int]]
        } else {
            [self.idle, self.idle]
        }
    }

    /// The device with register `addr` holding `value`.
    pub open spec fn with_register(self, addr: u8, value: u8) -> Device {
        Device { registers: self.registers.update(addr as int, value), ..self }
    }

    /// What a write comes to on this device over a transport that works:
    /// its result and the device after it.
    pub open spec fn write(self, write: RegisterWrite) -> (Result<(), Error>, Device) {
        (write.complete::<()>(Ok(())), self.receive(write.bytes()))
    }

    /// What a read comes to on this device over a transport that works.
    pub open spec fn read(self, read: RegisterRead) -> Result<u8, Error> {
        read.complete::<()>(Ok(()), self.answer(read.bytes()))
    }
}

/// A write of a register that the device has succeeds and changes that
/// register, and nothing else, to the value of the write.
pub proof fn lemma_write_stores(device: Device, write: RegisterWrite)
    requires
        write.wf(),
    ensures
        device.write(write) == (Ok::<(), Error>(()), device.with_register(write.addr, write.value)),
{
    lemma_command_fields(write.addr);
}

/// A read of a register that the device has gives what the register holds.
pub proof fn lemma_read_fetches(device: Device, read: RegisterRead)
    requires
        read.wf(),
    ensures
        device.read(read) == Ok::<u8, Error>(device.registers[read.addr as int]),
{
    lemma_command_fields(read.addr);
}

/// Writing a register and then reading it gives the written value back,
/// for every register address from 0 to 7.
pub proof fn lemma_written_register_reads_back<SPI>(
    driver: Pcm4104<SPI>,
    device: Device,
    addr: u8,
    value: u8,
)
    requires
        device.wf(),
        addr <= MAX_ADDRESS,
    ensures
        driver.write_register(addr, value) is Ok,
        driver.read_register(addr) is Ok,
        ({
            let (written, device_after) = device.write(driver.write_register(addr, value)->Ok_0);
            &&& written == Ok::<(), Error>(())
            &&& device_after.read(driver.read_register(addr)->Ok_0) == Ok::<u8, Error>(value)
        }),
{
    let write = driver.write_register(addr, value)->Ok_0;
    let read = driver.read_register(addr)->Ok_0;
    lemma_write_stores(device, write);
    lemma_read_fetches(device.with_register(addr, value), read);
}

/// One register access, as an operation puts it on the bus.
pub enum Access {
    /// A read.
    Read(RegisterRead),
    /// A write.
    Write(RegisterWrite),
}

/// An operation carried out to its end.
pub struct Run {
    /// The result of the operation.
    pub result: Result<(), Error>,
    /// The device after the operation.
    pub device: Device,
    /// The accesses that went on the bus, in order. An access that the
    /// transport failed is the last of them.
    pub accesses: Seq<Access>,
}

impl Step {
    /// A bound on the accesses that the operation makes from this step on.
    pub open spec fn accesses_left(&self) -> nat {
        match *self {
            Step::Read(_, _) => 2,
            Step::Write(_, then) => 1 + then.writes().len(),
            Step::Done(_) => 0,
        }
    }
}

/// The operation that starts with `step`, carried out on `device` over a
/// transport that performs `working` accesses and fails the one after
/// them. An access that fails does not reach the device.
pub open spec fn run(step: Step, device: Device, working: nat) -> Run
    decreases step.accesses_left(),
{
    let left: nat = if working > 0 {
        (working - 1) as nat
    } else {
        0
    };
    match step {
        Step::Read(read, then) => {
            let outcome = if working > 0 {
                device.read(read)
            } else {
                read.complete(Err::<(), ()>(()), [device.idle, device.idle])
            };
            let rest = run(then.resume(outcome), device, left);
            Run { accesses: seq![Access::Read(read)] + rest.accesses, ..rest }
        },
        Step::Write(write, then) => {
            let (outcome, reached) = if working > 0 {
                device.write(write)
            } else {
                (write.complete(Err::<(), ()>(())), device)
            };
            let rest = run(then.resume(outcome), reached, left);
            Run { accesses: seq![Access::Write(write)] + rest.accesses, ..rest }
        },
        Step::Done(result) => Run { result, device, accesses: Seq::empty() },
    }
}

/// An operation makes no more accesses than its first step lets expect, and
/// it fails over a transport that fails one of them.
pub proof fn lemma_run_bounds(step: Step, device: Device, working: nat)
    ensures
        run(step, device, working).accesses.len() <= step.accesses_left(),
        run(step, device, working).accesses.len() <= working + 1,
        run(step, device, working).accesses.len() > working ==> run(
            step,
            device,
            working,
        ).result == Err::<(), Error>(Error::SpiError),
    decreases step.accesses_left(),
{
    let left: nat = if working > 0 {
        (working - 1) as nat
    } else {
        0
    };
    match step {
        Step::Read(read, then) => {
            let outcome = if working > 0 {
                device.read(read)
            } else {
                read.complete(Err::<(), ()>(()), [device.idle, device.idle])
            };
            lemma_run_bounds(then.resume(outcome), device, left);
        },
        Step::Write(write, then) => {
            let (outcome, reached) = if working > 0 {
                device.write(write)
            } else {
                (write.complete(Err::<(), ()>(())), device)
            };
            lemma_run_bounds(then.resume(outcome), reached, left);
        },
        Step::Done(_) => {},
    }
}

/// A configuration that asks for de-emphasis at another sampling mode than
/// single rate is refused without an access: the device stays as it is,
/// whatever the transport would have done.
pub proof fn lemma_configure_refused<SPI>(
    driver: Pcm4104<SPI>,
    config: Pcm4104Config,
    device: Device,
    working: nat,
)
    requires
        !config.de_emphasis_available(),
    ensures
        run(driver.configure(config), device, working) == (Run {
            result: Err(Error::DeEmphasisNotAvailable),
            device,
            accesses: Seq::empty(),
        }),
{
}

/// The three writes of a configuration, in the order in which they go out.
pub open spec fn configuration_writes(config: Pcm4104Config) -> Seq<RegisterWrite> {
    seq![
        RegisterWrite { addr: FUNCTION_CONTROL, value: spec_function_control(&config) },
        RegisterWrite { addr: SYSTEM_CONTROL, value: spec_system_control(&config) },
        RegisterWrite {
            addr: AUDIO_SERIAL_PORT_CONTROL,
            value: spec_audio_serial_port_control(&config),
        },
    ]
}

/// The device after the first `count` of `writes` have reached it.
pub open spec fn after_writes(device: Device, writes: Seq<RegisterWrite>, count: nat) -> Device
    decreases count,
{
    if count == 0 || count > writes.len() {
        device
    } else {
        let write = writes[count - 1];
        after_writes(device, writes, (count - 1) as nat).with_register(write.addr, write.value)
    }
}

/// A configuration that is accepted goes out as three writes: function
/// control, system control, audio serial port control. Over a transport
/// that performs them all it succeeds, and the three registers hold the
/// configuration. Where the transport fails one of them, the operation
/// ends there with `SpiError`: the writes before the failed one have
/// reached the device and stay, the failed one and those after it have
/// not.
pub proof fn lemma_configure_runs<SPI>(
    driver: Pcm4104<SPI>,
    config: Pcm4104Config,
    device: Device,
    working: nat,
)
    requires
        device.wf(),
        config.de_emphasis_available(),
    ensures
        ({
            let writes = configuration_writes(config);
            let done = run(driver.configure(config), device, working);
            let made: nat = if working < 3 {
                working + 1
            } else {
                3
            };
            let reached: nat = if working < 3 {
                working
            } else {
                3
            };
            &&& done.result == if working < 3 {
                Err::<(), Error>(Error::SpiError)
            } else {
                Ok::<(), Error>(())
            }
            &&& done.accesses == Seq::new(made, |i: int| Access::Write(writes[i]))
            &&& done.device == after_writes(device, writes, reached)
        }),
{
    let writes = configuration_writes(config);
    let done = run(driver.configure(config), device, working);
    let made: nat = if working < 3 {
        working + 1
    } else {
        3
    };
    let reached: nat = if working < 3 {
        working
    } else {
        3
    };
    reveal_with_fuel(run, 5);
    reveal_with_fuel(after_writes, 4);
    lemma_write_stores(device, writes[0]);
    let one = device.with_register(writes[0].addr, writes[0].value);
    lemma_write_stores(one, writes[1]);
    let two = one.with_register(writes[1].addr, writes[1].value);
    lemma_write_stores(two, writes[2]);
    assert(done.accesses =~= Seq::new(made, |i: int| Access::Write(writes[i])));
}

/// Setting the mute of a channel reads the function control register and
/// writes it back with the mute bit of the channel changed. Over a
/// transport that performs both accesses the register ends up holding what
/// it held with that one bit changed, and no other register changes. Where
/// the transport fails either access, the operation ends there with
/// `SpiError` and the device is as it was; after a failed read no write
/// goes out.
pub proof fn lemma_set_mute_runs<SPI>(
    driver: Pcm4104<SPI>,
    channel: OutputChannel,
    mute: bool,
    device: Device,
    working: nat,
)
    requires
        device.wf(),
    ensures
        ({
            let read = RegisterRead { addr: FUNCTION_CONTROL };
            let held = device.registers[FUNCTION_CONTROL as int];
            let write = RegisterWrite {
                addr: FUNCTION_CONTROL,
                value: spec_with_mute(held, channel, mute),
            };
            let done = run(driver.set_mute(channel, mute), device, working);
            &&& working == 0 ==> done == (Run {
                result: Err(Error::SpiError),
                device,
                accesses: seq![Access::Read(read)],
            })
            &&& working == 1 ==> done == (Run {
                result: Err(Error::SpiError),
                device,
                accesses: seq![Access::Read(read), Access::Write(write)],
            })
            &&& working >= 2 ==> done == (Run {
                result: Ok(()),
                device: device.with_register(FUNCTION_CONTROL, write.value),
                accesses: seq![Access::Read(read), Access::Write(write)],
            })
        }),
{
    let read = RegisterRead { addr: FUNCTION_CONTROL };
    let held = device.registers[FUNCTION_CONTROL as int];
    let write = RegisterWrite { addr: FUNCTION_CONTROL, value: spec_with_mute(held, channel, mute) };
    let done = run(driver.set_mute(channel, mute), device, working);
    reveal_with_fuel(run, 4);
    lemma_read_fetches(device, read);
    lemma_write_stores(device, write);
    if working == 0 {
        assert(done.accesses =~= seq![Access::Read(read)]);
    } else {
        assert(done.accesses =~= seq![Access::Read(read), Access::Write(write)]);
    }
}

/// Setting the power state of a channel reads the system control register
/// and writes it back with the power-down bit of the channel's pair
/// changed. Over a transport that performs both accesses the register ends
/// up holding what it held with that one bit changed, and no other
/// register changes. Where the transport fails either access, the
/// operation ends there with `SpiError` and the device is as it was; after
/// a failed read no write goes out.
pub proof fn lemma_set_power_down_runs<SPI>(
    driver: Pcm4104<SPI>,
    channel: OutputChannel,
    down: bool,
    device: Device,
    working: nat,
)
    requires
        device.wf(),
    ensures
        ({
            let read = RegisterRead { addr: SYSTEM_CONTROL };
            let held = device.registers[SYSTEM_CONTROL as int];
            let write = RegisterWrite {
                addr: SYSTEM_CONTROL,
                value: spec_with_power_down(held, channel, down),
            };
            let done = run(driver.set_power_down(channel, down), device, working);
            &&& working == 0 ==> done == (Run {
                result: Err(Error::SpiError),
                device,
                accesses: seq![Access::Read(read)],
            })
            &&& working == 1 ==> done == (Run {
                result: Err(Error::SpiError),
                device,
                accesses: seq![Access::Read(read), Access::Write(write)],
            })
            &&& working >= 2 ==> done == (Run {
                result: Ok(()),
                device: device.with_register(SYSTEM_CONTROL, write.value),
                accesses: seq![Access::Read(read), Access::Write(write)],
            })
        }),
{
    let read = RegisterRead { addr: SYSTEM_CONTROL };
    let held = device.registers[SYSTEM_CONTROL as int];
    let write = RegisterWrite {
        addr: SYSTEM_CONTROL,
        value: spec_with_power_down(held, channel, down),
    };
    let done = run(driver.set_power_down(channel, down), device, working);
    reveal_with_fuel(run, 4);
    lemma_read_fetches(device, read);
    lemma_write_stores(device, write);
    if working == 0 {
        assert(done.accesses =~= seq![Access::Read(read)]);
    } else {
        assert(done.accesses =~= seq![Access::Read(read), Access::Write(write)]);
    }
}

/// The channels of a pair are powered together: on the same device and
/// over the same transport, the operation for one channel of a pair makes
/// the accesses, leaves the device and gives the result of the operation
/// for the other.
pub proof fn lemma_set_power_down_pairs<SPI>(
    driver: Pcm4104<SPI>,
    down: bool,
    device: Device,
    working: nat,
)
    requires
        device.wf(),
    ensures
        run(driver.set_power_down(OutputChannel::Channel1, down), device, working) == run(
            driver.set_power_down(OutputChannel::Channel2, down),
            device,
            working,
        ),
        run(driver.set_power_down(OutputChannel::Channel3, down), device, working) == run(
            driver.set_power_down(OutputChannel::Channel4, down),
            device,
            working,
        ),
{
    lemma_power_down_pairs(device.registers[SYSTEM_CONTROL as int], down);
    lemma_set_power_down_runs(driver, OutputChannel::Channel1, down, device, working);
    lemma_set_power_down_runs(driver, OutputChannel::Channel2, down, device, working);
    lemma_set_power_down_runs(driver, OutputChannel::Channel3, down, device, working);
    lemma_set_power_down_runs(driver, OutputChannel::Channel4, down, device, working);
}

/// An operation that is one write, carried out: the write is the only
/// access. Over a transport that performs it the register holds the value
/// and no other register changes; over one that fails it the operation
/// ends with `SpiError` and the device is as it was.
pub open spec fn single_write_run(write: RegisterWrite, device: Device, working: nat) -> Run {
    if working > 0 {
        Run {
            result: Ok(()),
            device: device.with_register(write.addr, write.value),
            accesses: seq![Access::Write(write)],
        }
    } else {
        Run { result: Err(Error::SpiError), device, accesses: seq![Access::Write(write)] }
    }
}

/// Setting the attenuation of a channel is one write of the attenuation to
/// the register of the channel, with no read before it.
pub proof fn lemma_set_attenuation_runs<SPI>(
    driver: Pcm4104<SPI>,
    channel: OutputChannel,
    atten: u8,
    device: Device,
    working: nat,
)
    requires
        device.wf(),
    ensures
        run(driver.set_attenuation(channel, atten), device, working) == single_write_run(
            RegisterWrite { addr: spec_attenuation_register(channel), value: atten },
            device,
            working,
        ),
{
    let write = RegisterWrite { addr: spec_attenuation_register(channel), value: atten };
    let done = run(driver.set_attenuation(channel, atten), device, working);
    reveal_with_fuel(run, 3);
    lemma_write_stores(device, write);
    assert(done.accesses =~= seq![Access::Write(write)]);
}

/// A reset is one write of the reset command to the system control
/// register.
pub proof fn lemma_reset_runs<SPI>(driver: Pcm4104<SPI>, device: Device, working: nat)
    requires
        device.wf(),
    ensures
        run(driver.reset(), device, working) == single_write_run(
            RegisterWrite { addr: SYSTEM_CONTROL, value: SOFTWARE_RESET },
            device,
            working,
        ),
{
    let write = RegisterWrite { addr: SYSTEM_CONTROL, value: SOFTWARE_RESET };
    let done = run(driver.reset(), device, working);
    reveal_with_fuel(run, 3);
    lemma_write_stores(device, write);
    assert(done.accesses =~= seq![Access::Write(write)]);
}

} // verus!
