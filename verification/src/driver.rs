//! The driver: the operations of the device, each as its first step.

use vstd::prelude::*;
use crate::access::{RegisterRead, RegisterWrite};
use crate::config::{OutputChannel, Pcm4104Config, DeEmphasis, SamplingMode};
use crate::error::Error;
use crate::registers::{
    attenuation_register, audio_serial_port_control, function_control, system_control,
    AUDIO_SERIAL_PORT_CONTROL, FUNCTION_CONTROL, MAX_ADDRESS, SOFTWARE_RESET, SYSTEM_CONTROL,
};
use crate::step::{AfterRead, AfterWrite, Step};

verus! {

/// Driver for the DAC.
///
/// The driver owns the transport to the device and keeps nothing else: no
/// copy of a register, and no trace of an earlier operation. Its operations
/// decide what goes over the transport; [`Pcm4104::transport`] lends the
/// transport out so that it can be sent.
pub struct Pcm4104<SPI> {
    spi: SPI,
}

impl<SPI> Pcm4104<SPI> {
    /// The transport that the driver owns.
    pub closed spec fn spec_transport(&self) -> SPI {
        self.spi
    }

    /// Returns a new driver.
    pub fn new(spi: SPI) -> (driver: Self)
        ensures
            driver.spec_transport() == spi,
    {
        Self { spi }
    }

    /// Lends out the transport, for the accesses of a step to be performed
    /// on it.
    pub fn transport(&mut self) -> (spi: &mut SPI)
        ensures
            *spi == old(self).spec_transport(),
            final(self).spec_transport() == *final(spi),
    {
        &mut self.spi
    }

    /// The outcome of [`Pcm4104::read_register`].
    pub open spec fn spec_read_register(&self, addr: u8) -> Result<RegisterRead, Error> {
        if addr > MAX_ADDRESS {
            Err(Error::InvalidRegisterAddress)
        } else {
            Ok(RegisterRead { addr })
        }
    }

    /// Reads a single register.
    ///
    /// For an address that the device has, this gives the read to put on
    /// the bus; [`RegisterRead::complete`] then gives the value. For any
    /// other address it fails with [`Error::InvalidRegisterAddress`], and
    /// there is nothing to put on the bus.
    #[verifier::when_used_as_spec(spec_read_register)]
    pub fn read_register(&self, addr: u8) -> (result: Result<RegisterRead, Error>)
        ensures
            result == self.spec_read_register(addr),
            addr <= MAX_ADDRESS ==> result == Ok::<RegisterRead, Error>(RegisterRead { addr }),
            addr > MAX_ADDRESS ==> result == Err::<RegisterRead, Error>(
                Error::InvalidRegisterAddress,
            ),
            result matches Ok(read) ==> read.wf(),
    {
        if addr > MAX_ADDRESS {
            return Err(Error::InvalidRegisterAddress);
        }
        Ok(RegisterRead { addr })
    }

    /// The outcome of [`Pcm4104::write_register`].
    pub open spec fn spec_write_register(&self, addr: u8, value: u8) -> Result<
        RegisterWrite,
        Error,
    > {
        if addr > MAX_ADDRESS {
            Err(Error::InvalidRegisterAddress)
        } else {
            Ok(RegisterWrite { addr, value })
        }
    }

    /// Writes a single register.
    ///
    /// For an address that the device has, this gives the write to put on
    /// the bus; [`RegisterWrite::complete`] then gives the result. For any
    /// other address it fails with [`Error::InvalidRegisterAddress`], and
    /// there is nothing to put on the bus.
    #[verifier::when_used_as_spec(spec_write_register)]
    pub fn write_register(&self, addr: u8, value: u8) -> (result: Result<RegisterWrite, Error>)
        ensures
            result == self.spec_write_register(addr, value),
            addr <= MAX_ADDRESS ==> result == Ok::<RegisterWrite, Error>(
                RegisterWrite { addr, value },
            ),
            addr > MAX_ADDRESS ==> result == Err::<RegisterWrite, Error>(
                Error::InvalidRegisterAddress,
            ),
            result matches Ok(write) ==> write.wf(),
    {
        if addr > MAX_ADDRESS {
            return Err(Error::InvalidRegisterAddress);
        }
        Ok(RegisterWrite { addr, value })
    }

    /// The first step of [`Pcm4104::configure`].
    pub open spec fn spec_configure(&self, config: Pcm4104Config) -> Step {
        if config.de_emphasis_available() {
            Step::Write(
                RegisterWrite { addr: FUNCTION_CONTROL, value: function_control(&config) },
                AfterWrite::WriteTwo(
                    RegisterWrite { addr: SYSTEM_CONTROL, value: system_control(&config) },
                    RegisterWrite {
                        addr: AUDIO_SERIAL_PORT_CONTROL,
                        value: audio_serial_port_control(&config),
                    },
                ),
            )
        } else {
            Step::Done(Err(Error::DeEmphasisNotAvailable))
        }
    }

    /// Configures the DAC with specific settings.
    ///
    /// A configuration that asks for de-emphasis at another sampling mode
    /// than single rate is refused with [`Error::DeEmphasisNotAvailable`]
    /// before any register is touched. Any other configuration is written
    /// in three writes: function control, then system control, then audio
    /// serial port control, each register holding the settings as
    /// [`crate::registers`] packs them.
    #[verifier::when_used_as_spec(spec_configure)]
    pub fn configure(&self, config: Pcm4104Config) -> (step: Step)
        ensures
            step == self.spec_configure(config),
            !config.de_emphasis_available() ==> step == Step::Done(
                Err(Error::DeEmphasisNotAvailable),
            ),
            config.de_emphasis_available() ==> step.writes() == seq![
                (RegisterWrite { addr: FUNCTION_CONTROL, value: function_control(&config) }),
                (RegisterWrite { addr: SYSTEM_CONTROL, value: system_control(&config) }),
                (RegisterWrite {
                    addr: AUDIO_SERIAL_PORT_CONTROL,
                    value: audio_serial_port_control(&config),
                }),
            ] && step is Write,
            step.wf(),
    {
        // Check if de-emphasis can be activated.
        if config.de_emphasis != DeEmphasis::Disabled && config.sampling_mode
            != SamplingMode::SingleRate {
            return Step::Done(Err(Error::DeEmphasisNotAvailable));
        }
        let function = RegisterWrite { addr: FUNCTION_CONTROL, value: function_control(&config) };
        let system = RegisterWrite { addr: SYSTEM_CONTROL, value: system_control(&config) };
        let serial_port = RegisterWrite {
            addr: AUDIO_SERIAL_PORT_CONTROL,
            value: audio_serial_port_control(&config),
        };
        assert(seq![function] + seq![system, serial_port] =~= seq![function, system, serial_port]);
        Step::Write(function, AfterWrite::WriteTwo(system, serial_port))
    }

    /// The first step of [`Pcm4104::set_attenuation`].
    pub open spec fn spec_set_attenuation(&self, channel: OutputChannel, atten: u8) -> Step {
        Step::Write(
            RegisterWrite { addr: attenuation_register(channel), value: atten },
            AfterWrite::Finish,
        )
    }

    /// Sets the digital output attenuation for a channel.
    ///
    /// One write puts the attenuation, as it is, into the register of the
    /// channel. Nothing is read first.
    #[verifier::when_used_as_spec(spec_set_attenuation)]
    pub fn set_attenuation(&self, channel: OutputChannel, atten: u8) -> (step: Step)
        ensures
            step == self.spec_set_attenuation(channel, atten),
            step == Step::Write(
                (RegisterWrite { addr: attenuation_register(channel), value: atten }),
                AfterWrite::Finish,
            ),
            step.wf(),
    {
        Step::Write(
            RegisterWrite { addr: attenuation_register(channel), value: atten },
            AfterWrite::Finish,
        )
    }

    /// The first step of [`Pcm4104::set_mute`].
    pub open spec fn spec_set_mute(&self, channel: OutputChannel, mute: bool) -> Step {
        Step::Read(RegisterRead { addr: FUNCTION_CONTROL }, AfterRead::SetMute(channel, mute))
    }

    /// Sets the soft mute on/off for a channel.
    ///
    /// The function control register is read, and written back with the
    /// mute bit of the channel changed: see [`AfterRead::resume`]. The two
    /// accesses are separate; what else writes the register between them is
    /// lost.
    #[verifier::when_used_as_spec(spec_set_mute)]
    pub fn set_mute(&self, channel: OutputChannel, mute: bool) -> (step: Step)
        ensures
            step == self.spec_set_mute(channel, mute),
            step == Step::Read(
                (RegisterRead { addr: FUNCTION_CONTROL }),
                AfterRead::SetMute(channel, mute),
            ),
            step.wf(),
    {
        Step::Read(RegisterRead { addr: FUNCTION_CONTROL }, AfterRead::SetMute(channel, mute))
    }

    /// The first step of [`Pcm4104::set_power_down`].
    pub open spec fn spec_set_power_down(&self, channel: OutputChannel, down: bool) -> Step {
        Step::Read(RegisterRead { addr: SYSTEM_CONTROL }, AfterRead::SetPowerDown(channel, down))
    }

    /// Sets the power down state for pair of channels.
    /// The state can only be changed for channel 1/2 or 3/4 at once,
    /// setting one channel of a pair will also affect the other.
    ///
    /// The system control register is read, and written back with the
    /// power-down bit of the pair changed: see [`AfterRead::resume`].
    #[verifier::when_used_as_spec(spec_set_power_down)]
    pub fn set_power_down(&self, channel: OutputChannel, down: bool) -> (step: Step)
        ensures
            step == self.spec_set_power_down(channel, down),
            step == Step::Read(
                (RegisterRead { addr: SYSTEM_CONTROL }),
                AfterRead::SetPowerDown(channel, down),
            ),
            step.wf(),
    {
        Step::Read(RegisterRead { addr: SYSTEM_CONTROL }, AfterRead::SetPowerDown(channel, down))
    }

    /// The first step of [`Pcm4104::reset`].
    pub open spec fn spec_reset(&self) -> Step {
        Step::Write(
            RegisterWrite { addr: SYSTEM_CONTROL, value: SOFTWARE_RESET },
            AfterWrite::Finish,
        )
    }

    /// Performs a software reset.
    ///
    /// One write puts the reset command into the system control register.
    /// Nothing is read back to see that the device has reset.
    #[verifier::when_used_as_spec(spec_reset)]
    pub fn reset(&self) -> (step: Step)
        ensures
            step == self.spec_reset(),
            step == Step::Write(
                (RegisterWrite { addr: SYSTEM_CONTROL, value: SOFTWARE_RESET }),
                AfterWrite::Finish,
            ),
            step.wf(),
    {
        Step::Write(
            RegisterWrite { addr: SYSTEM_CONTROL, value: SOFTWARE_RESET },
            AfterWrite::Finish,
        )
    }
}

} // verus!
