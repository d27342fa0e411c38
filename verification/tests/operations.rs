use pcm4104::{
    AfterRead, AfterWrite, DeEmphasis, Error, OutputChannel, OutputPhase, Pcm4104, Pcm4104Config,
    RegisterRead, RegisterWrite, SamplingMode, Step,
};

/// One access as the bus saw it.
#[derive(Debug, Clone, Copy, PartialEq, Eq)]
enum Seen {
    Transfer([u8; 2]),
    Write([u8; 2]),
}

/// A device that stores what is written to it and answers reads with what
/// it stores, behind a bus that records every access and fails from a given
/// access on.
struct Bus {
    registers: [u8; 8],
    seen: Vec<Seen>,
    fails_from: usize,
}

impl Bus {
    fn new() -> Self {
        Bus { registers: [0; 8], seen: Vec::new(), fails_from: usize::MAX }
    }

    fn holding(register: usize, value: u8) -> Self {
        let mut bus = Bus::new();
        bus.registers[register] = value;
        bus
    }

    fn failing_from(access: usize) -> Self {
        Bus { fails_from: access, ..Bus::new() }
    }

    fn write(&mut self, bytes: &[u8; 2]) -> Result<(), &'static str> {
        self.seen.push(Seen::Write(*bytes));
        if self.seen.len() > self.fails_from {
            return Err("bus fault");
        }
        if bytes[0] >> 5 == 0b001 {
            self.registers[(bytes[0] & 0b111) as usize] = bytes[1];
        }
        Ok(())
    }

    fn transfer(&mut self, received: &mut [u8; 2], bytes: &[u8; 2]) -> Result<(), &'static str> {
        self.seen.push(Seen::Transfer(*bytes));
        if self.seen.len() > self.fails_from {
            return Err("bus fault");
        }
        received[0] = 0xEE;
        if bytes[0] >> 5 == 0b101 {
            received[1] = self.registers[(bytes[0] & 0b111) as usize];
        }
        Ok(())
    }
}

fn perform_read(driver: &mut Pcm4104<Bus>, read: RegisterRead) -> Result<u8, Error> {
    let mut received = [0u8; 2];
    let outcome = driver.transport().transfer(&mut received, &read.bytes());
    read.complete(outcome, received)
}

fn perform_write(driver: &mut Pcm4104<Bus>, write: RegisterWrite) -> Result<(), Error> {
    let outcome = driver.transport().write(&write.bytes());
    write.complete(outcome)
}

fn run(driver: &mut Pcm4104<Bus>, first: Step) -> Result<(), Error> {
    let mut step = first;
    loop {
        step = match step {
            Step::Read(read, then) => then.resume(perform_read(driver, read)),
            Step::Write(write, then) => then.resume(perform_write(driver, write)),
            Step::Done(result) => return result,
        };
    }
}

fn read_register(driver: &mut Pcm4104<Bus>, addr: u8) -> Result<u8, Error> {
    let read = driver.read_register(addr)?;
    perform_read(driver, read)
}

fn write_register(driver: &mut Pcm4104<Bus>, addr: u8, value: u8) -> Result<(), Error> {
    let write = driver.write_register(addr, value)?;
    perform_write(driver, write)
}

const CHANNELS: [OutputChannel; 4] = [
    OutputChannel::Channel1,
    OutputChannel::Channel2,
    OutputChannel::Channel3,
    OutputChannel::Channel4,
];

const SAMPLING_MODES: [SamplingMode; 3] =
    [SamplingMode::SingleRate, SamplingMode::DualRate, SamplingMode::QuadRate];

const DE_EMPHASES: [DeEmphasis; 4] =
    [DeEmphasis::Disabled, DeEmphasis::Fs48Khz, DeEmphasis::Fs44_1Khz, DeEmphasis::Fs32Khz];

#[test]
fn new_driver_owns_the_transport_it_was_given() {
    let mut driver = Pcm4104::new(Bus::holding(4, 0x5A));
    assert_eq!(driver.transport().registers[4], 0x5A);
    driver.transport().registers[4] = 0xA5;
    assert_eq!(driver.transport().registers[4], 0xA5);
    assert!(driver.transport().seen.is_empty());
}

#[test]
fn written_register_reads_back() {
    for addr in 0..=7u8 {
        for value in [0x00u8, 0x01, 0x7F, 0x80, 0xA5, 0xFF] {
            let mut driver = Pcm4104::new(Bus::new());
            assert_eq!(write_register(&mut driver, addr, value), Ok(()));
            assert_eq!(read_register(&mut driver, addr), Ok(value));
            assert_eq!(
                driver.transport().seen,
                vec![
                    Seen::Write([0b0010_0000 | addr, value]),
                    Seen::Transfer([0b1010_0000 | addr, 0]),
                ]
            );
        }
    }
}

#[test]
fn write_register_leaves_the_other_registers_alone() {
    let mut driver = Pcm4104::new(Bus::new());
    driver.transport().registers = [10, 11, 12, 13, 14, 15, 16, 17];
    assert_eq!(write_register(&mut driver, 3, 0xC3), Ok(()));
    assert_eq!(driver.transport().registers, [10, 11, 12, 0xC3, 14, 15, 16, 17]);
}

#[test]
fn read_register_rejects_addresses_above_seven() {
    for addr in 8..=u8::MAX {
        let mut driver = Pcm4104::new(Bus::new());
        assert_eq!(driver.read_register(addr), Err(Error::InvalidRegisterAddress));
        assert_eq!(read_register(&mut driver, addr), Err(Error::InvalidRegisterAddress));
        assert!(driver.transport().seen.is_empty());
    }
}

#[test]
fn write_register_rejects_addresses_above_seven() {
    for addr in 8..=u8::MAX {
        let mut driver = Pcm4104::new(Bus::new());
        assert_eq!(driver.write_register(addr, 0x55), Err(Error::InvalidRegisterAddress));
        assert_eq!(write_register(&mut driver, addr, 0x55), Err(Error::InvalidRegisterAddress));
        assert!(driver.transport().seen.is_empty());
        assert_eq!(driver.transport().registers, [0; 8]);
    }
}

#[test]
fn register_accesses_accept_addresses_up_to_seven() {
    let driver = Pcm4104::new(Bus::new());
    for addr in 0..=7u8 {
        assert_eq!(driver.read_register(addr), Ok(RegisterRead { addr }));
        assert_eq!(driver.write_register(addr, 0x3C), Ok(RegisterWrite { addr, value: 0x3C }));
    }
}

#[test]
fn read_register_reports_a_failed_transfer() {
    let mut driver = Pcm4104::new(Bus::failing_from(0));
    assert_eq!(read_register(&mut driver, 2), Err(Error::SpiError));
    assert_eq!(driver.transport().seen, vec![Seen::Transfer([0b1010_0010, 0])]);
}

#[test]
fn write_register_reports_a_failed_write() {
    let mut driver = Pcm4104::new(Bus::failing_from(0));
    assert_eq!(write_register(&mut driver, 2, 9), Err(Error::SpiError));
    assert_eq!(driver.transport().seen, vec![Seen::Write([0b0010_0010, 9])]);
}

#[test]
fn configure_refuses_de_emphasis_above_single_rate() {
    for sampling_mode in [SamplingMode::DualRate, SamplingMode::QuadRate] {
        for de_emphasis in [DeEmphasis::Fs48Khz, DeEmphasis::Fs44_1Khz, DeEmphasis::Fs32Khz] {
            for flags in 0..8u8 {
                let config = Pcm4104Config {
                    sampling_mode,
                    de_emphasis,
                    zero_data_mute: flags & 1 != 0,
                    soft_mute: flags & 2 != 0,
                    power_down: flags & 4 != 0,
                    ..Pcm4104Config::default()
                };
                let mut driver = Pcm4104::new(Bus::new());
                let step = driver.configure(config);
                assert_eq!(step, Step::Done(Err(Error::DeEmphasisNotAvailable)));
                assert_eq!(run(&mut driver, step), Err(Error::DeEmphasisNotAvailable));
                assert!(driver.transport().seen.is_empty());
            }
        }
    }
}

#[test]
fn configure_accepts_every_other_combination() {
    for sampling_mode in SAMPLING_MODES {
        for de_emphasis in DE_EMPHASES {
            if de_emphasis != DeEmphasis::Disabled && sampling_mode != SamplingMode::SingleRate {
                continue;
            }
            let config = Pcm4104Config { sampling_mode, de_emphasis, ..Pcm4104Config::default() };
            let mut driver = Pcm4104::new(Bus::new());
            let step = driver.configure(config);
            assert_eq!(run(&mut driver, step), Ok(()));
            assert_eq!(
                driver.transport().seen,
                vec![
                    Seen::Write([0b0010_0101, de_emphasis.code()]),
                    Seen::Write([0b0010_0110, sampling_mode.code()]),
                    Seen::Write([0b0010_0111, 0]),
                ]
            );
        }
    }
}

#[test]
fn configure_writes_function_control_first() {
    let config = Pcm4104Config {
        sampling_mode: SamplingMode::SingleRate,
        de_emphasis: DeEmphasis::Fs48Khz,
        output_phase: OutputPhase::Inverted,
        zero_data_mute: true,
        soft_mute: false,
        ..Pcm4104Config::default()
    };
    let mut driver = Pcm4104::new(Bus::new());
    let step = driver.configure(config);
    match step {
        Step::Write(write, _) => {
            assert_eq!(write, RegisterWrite { addr: 5, value: 0b0000_1101 });
        }
        _ => panic!("configure starts with a write"),
    }
    assert_eq!(run(&mut driver, step), Ok(()));
    assert_eq!(driver.transport().seen[0], Seen::Write([0b0010_0101, 0b0000_1101]));
    assert_eq!(driver.transport().registers[5], 0b0000_1101);
}

#[test]
fn configure_without_zero_data_mute_writes_five_to_function_control() {
    let config = Pcm4104Config {
        sampling_mode: SamplingMode::SingleRate,
        de_emphasis: DeEmphasis::Fs48Khz,
        output_phase: OutputPhase::Inverted,
        zero_data_mute: false,
        soft_mute: false,
        ..Pcm4104Config::default()
    };
    let mut driver = Pcm4104::new(Bus::new());
    let step = driver.configure(config);
    assert_eq!(run(&mut driver, step), Ok(()));
    assert_eq!(driver.transport().seen[0], Seen::Write([0b0010_0101, 0b0000_0101]));
}

#[test]
fn configure_writes_three_registers_in_order() {
    let config = Pcm4104Config {
        sampling_mode: SamplingMode::QuadRate,
        audio_data_format: pcm4104::AudioDataFormat::TdmOneBckDelay,
        lrck_polarity: pcm4104::LrckPolarity::Inverted,
        bck_sampling_edge: pcm4104::BckSamplingEdge::Falling,
        de_emphasis: DeEmphasis::Disabled,
        output_phase: OutputPhase::Inverted,
        zero_data_mute: true,
        soft_mute: true,
        power_down: true,
    };
    let mut driver = Pcm4104::new(Bus::new());
    let step = driver.configure(config);
    assert_eq!(
        step,
        Step::Write(
            RegisterWrite { addr: 5, value: 0b1111_1100 },
            AfterWrite::WriteTwo(
                RegisterWrite { addr: 6, value: 0b0000_1110 },
                RegisterWrite { addr: 7, value: 0b0011_0011 },
            ),
        )
    );
    assert_eq!(run(&mut driver, step), Ok(()));
    assert_eq!(
        driver.transport().seen,
        vec![
            Seen::Write([0b0010_0101, 0b1111_1100]),
            Seen::Write([0b0010_0110, 0b0000_1110]),
            Seen::Write([0b0010_0111, 0b0011_0011]),
        ]
    );
    assert_eq!(driver.transport().registers, [0, 0, 0, 0, 0, 0b1111_1100, 0b0000_1110, 0b0011_0011]);
}

#[test]
fn configure_stops_at_the_first_failed_write() {
    let config = Pcm4104Config { soft_mute: true, power_down: true, ..Pcm4104Config::default() };
    for good in 0..3usize {
        let mut driver = Pcm4104::new(Bus::failing_from(good));
        let step = driver.configure(config);
        assert_eq!(run(&mut driver, step), Err(Error::SpiError));
        assert_eq!(driver.transport().seen.len(), good + 1);
        let mut expected = [0u8; 8];
        if good > 0 {
            expected[5] = 0b1111_0000;
        }
        if good > 1 {
            expected[6] = 0b0000_1100;
        }
        assert_eq!(driver.transport().registers, expected);
    }
}

#[test]
fn set_mute_reads_then_writes_function_control() {
    let mut driver = Pcm4104::new(Bus::holding(5, 0b0000_0000));
    let step = driver.set_mute(OutputChannel::Channel3, true);
    assert_eq!(run(&mut driver, step), Ok(()));
    assert_eq!(
        driver.transport().seen,
        vec![Seen::Transfer([0b1010_0101, 0]), Seen::Write([0b0010_0101, 0b0100_0000])]
    );
}

#[test]
fn set_mute_keeps_the_other_bits() {
    let mut driver = Pcm4104::new(Bus::holding(5, 0b1010_1101));
    let step = driver.set_mute(OutputChannel::Channel1, true);
    assert_eq!(run(&mut driver, step), Ok(()));
    assert_eq!(driver.transport().registers[5], 0b1011_1101);

    let step = driver.set_mute(OutputChannel::Channel4, false);
    assert_eq!(run(&mut driver, step), Ok(()));
    assert_eq!(driver.transport().registers[5], 0b0011_1101);
}

#[test]
fn set_mute_of_each_channel() {
    for (index, channel) in CHANNELS.iter().enumerate() {
        let mut driver = Pcm4104::new(Bus::new());
        let step = driver.set_mute(*channel, true);
        assert_eq!(step, Step::Read(RegisterRead { addr: 5 }, AfterRead::SetMute(*channel, true)));
        assert_eq!(run(&mut driver, step), Ok(()));
        assert_eq!(driver.transport().registers[5], 1 << (4 + index));

        let step = driver.set_mute(*channel, false);
        assert_eq!(run(&mut driver, step), Ok(()));
        assert_eq!(driver.transport().registers[5], 0);
    }
}

#[test]
fn set_mute_writes_nothing_when_the_read_fails() {
    let mut driver = Pcm4104::new(Bus::failing_from(0));
    let step = driver.set_mute(OutputChannel::Channel2, true);
    assert_eq!(run(&mut driver, step), Err(Error::SpiError));
    assert_eq!(driver.transport().seen, vec![Seen::Transfer([0b1010_0101, 0])]);
}

#[test]
fn set_mute_reports_a_failed_write() {
    let mut driver = Pcm4104::new(Bus::failing_from(1));
    let step = driver.set_mute(OutputChannel::Channel2, true);
    assert_eq!(run(&mut driver, step), Err(Error::SpiError));
    assert_eq!(
        driver.transport().seen,
        vec![Seen::Transfer([0b1010_0101, 0]), Seen::Write([0b0010_0101, 0b0010_0000])]
    );
    assert_eq!(driver.transport().registers[5], 0);
}

#[test]
fn set_power_down_sets_the_pair_and_keeps_the_sampling_mode() {
    for channel in [OutputChannel::Channel1, OutputChannel::Channel2] {
        let mut driver = Pcm4104::new(Bus::holding(6, 0b0000_0001));
        let step = driver.set_power_down(channel, true);
        assert_eq!(run(&mut driver, step), Ok(()));
        assert_eq!(
            driver.transport().seen,
            vec![Seen::Transfer([0b1010_0110, 0]), Seen::Write([0b0010_0110, 0b0000_0101])]
        );
        assert_eq!(driver.transport().registers[6], 0b0000_0101);
    }
}

#[test]
fn set_power_down_of_the_second_pair() {
    for channel in [OutputChannel::Channel3, OutputChannel::Channel4] {
        let mut driver = Pcm4104::new(Bus::holding(6, 0b0000_0110));
        let step = driver.set_power_down(channel, true);
        assert_eq!(
            step,
            Step::Read(RegisterRead { addr: 6 }, AfterRead::SetPowerDown(channel, true))
        );
        assert_eq!(run(&mut driver, step), Ok(()));
        assert_eq!(driver.transport().registers[6], 0b0000_1110);

        let step = driver.set_power_down(channel, false);
        assert_eq!(run(&mut driver, step), Ok(()));
        assert_eq!(driver.transport().registers[6], 0b0000_0110);
    }
}

#[test]
fn set_power_down_writes_nothing_when_the_read_fails() {
    let mut driver = Pcm4104::new(Bus::failing_from(0));
    let step = driver.set_power_down(OutputChannel::Channel4, true);
    assert_eq!(run(&mut driver, step), Err(Error::SpiError));
    assert_eq!(driver.transport().seen, vec![Seen::Transfer([0b1010_0110, 0])]);
}

#[test]
fn set_attenuation_is_one_write() {
    let mut driver = Pcm4104::new(Bus::new());
    let step = driver.set_attenuation(OutputChannel::Channel2, 0x7F);
    assert_eq!(step, Step::Write(RegisterWrite { addr: 2, value: 0x7F }, AfterWrite::Finish));
    assert_eq!(run(&mut driver, step), Ok(()));
    assert_eq!(driver.transport().seen, vec![Seen::Write([0b0010_0010, 0x7F])]);
}

#[test]
fn set_attenuation_of_each_channel() {
    for (index, channel) in CHANNELS.iter().enumerate() {
        let mut driver = Pcm4104::new(Bus::new());
        let step = driver.set_attenuation(*channel, 0xC0 + index as u8);
        assert_eq!(run(&mut driver, step), Ok(()));
        let mut expected = [0u8; 8];
        expected[1 + index] = 0xC0 + index as u8;
        assert_eq!(driver.transport().registers, expected);
        assert_eq!(driver.transport().seen.len(), 1);
    }
}

#[test]
fn set_attenuation_reports_a_failed_write() {
    let mut driver = Pcm4104::new(Bus::failing_from(0));
    let step = driver.set_attenuation(OutputChannel::Channel1, 1);
    assert_eq!(run(&mut driver, step), Err(Error::SpiError));
    assert_eq!(driver.transport().seen.len(), 1);
}

#[test]
fn reset_is_one_write_to_system_control() {
    let mut driver = Pcm4104::new(Bus::new());
    let step = driver.reset();
    assert_eq!(
        step,
        Step::Write(RegisterWrite { addr: 6, value: 0b100_0000 }, AfterWrite::Finish)
    );
    assert_eq!(run(&mut driver, step), Ok(()));
    assert_eq!(driver.transport().seen, vec![Seen::Write([0b0010_0110, 0b100_0000])]);
}

#[test]
fn reset_reports_a_failed_write() {
    let mut driver = Pcm4104::new(Bus::failing_from(0));
    let step = driver.reset();
    assert_eq!(run(&mut driver, step), Err(Error::SpiError));
}

#[test]
fn resume_after_a_read_passes_the_error_on() {
    let then = AfterRead::SetMute(OutputChannel::Channel1, true);
    assert_eq!(then.resume(Err(Error::SpiError)), Step::Done(Err(Error::SpiError)));
    assert_eq!(
        then.resume(Err(Error::InvalidRegisterAddress)),
        Step::Done(Err(Error::InvalidRegisterAddress))
    );
}

#[test]
fn resume_after_a_read_writes_the_changed_value_back() {
    assert_eq!(
        AfterRead::SetMute(OutputChannel::Channel3, true).resume(Ok(0b0000_0011)),
        Step::Write(RegisterWrite { addr: 5, value: 0b0100_0011 }, AfterWrite::Finish)
    );
    assert_eq!(
        AfterRead::SetPowerDown(OutputChannel::Channel3, true).resume(Ok(0b0000_0011)),
        Step::Write(RegisterWrite { addr: 6, value: 0b0000_1011 }, AfterWrite::Finish)
    );
}

#[test]
fn resume_after_a_write_takes_the_writes_in_order() {
    let first = RegisterWrite { addr: 1, value: 10 };
    let second = RegisterWrite { addr: 2, value: 20 };
    assert_eq!(AfterWrite::Finish.resume(Ok(())), Step::Done(Ok(())));
    assert_eq!(AfterWrite::Write(first).resume(Ok(())), Step::Write(first, AfterWrite::Finish));
    assert_eq!(
        AfterWrite::WriteTwo(first, second).resume(Ok(())),
        Step::Write(first, AfterWrite::Write(second))
    );
}

#[test]
fn resume_after_a_failed_write_drops_the_rest() {
    let first = RegisterWrite { addr: 1, value: 10 };
    let second = RegisterWrite { addr: 2, value: 20 };
    for then in [AfterWrite::Finish, AfterWrite::Write(first), AfterWrite::WriteTwo(first, second)] {
        assert_eq!(then.resume(Err(Error::SpiError)), Step::Done(Err(Error::SpiError)));
    }
}
