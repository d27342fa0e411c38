//! The control registers: where they are and how settings are packed into
//! them.
//!
//! | address | register                   | layout                                             |
//! |---------|----------------------------|----------------------------------------------------|
//! | 1 to 4  | attenuation, channel 1 to 4 | the raw attenuation byte                           |
//! | 5       | function control           | `[7:4]` channel mutes, `[3]` zero data mute, `[2]` output phase, `[1:0]` de-emphasis |
//! | 6       | system control             | `[6]` reset, `[3:2]` power down per channel pair, `[1:0]` sampling mode |
//! | 7       | audio serial port control  | `[5]` BCK edge, `[4]` LRCK polarity, `[2:0]` data format |

use vstd::prelude::*;
use crate::config::{OutputChannel, Pcm4104Config};

verus! {

/// Highest register address the device decodes.
pub const MAX_ADDRESS: u8 = 7;

/// Address of the function control register.
pub const FUNCTION_CONTROL: u8 = 5;

/// Address of the system control register.
pub const SYSTEM_CONTROL: u8 = 6;

/// Address of the audio serial port control register.
pub const AUDIO_SERIAL_PORT_CONTROL: u8 = 7;

/// System control value that makes the device reset itself.
pub const SOFTWARE_RESET: u8 = 0b0100_0000;

/// Whether the bit at `position` of `value` is set.
pub open spec fn bit(value: u8, position: u8) -> bool {
    (value >> position) & 1 == 1
}

/// The function control register for `config`.
pub open spec fn spec_function_control(config: &Pcm4104Config) -> u8 {
    let zero_data_mute: u8 = if config.zero_data_mute { 0b1 } else { 0b0 };
    let channel_mutes: u8 = if config.soft_mute { 0b1111 } else { 0b0000 };
    config.de_emphasis.code() | (config.output_phase.code() << 2) | (zero_data_mute << 3) | (
    channel_mutes << 4)
}

/// What each field of a function control `value` holds when it encodes
/// `config`. The fields cover all eight bits, so one value at most fits.
pub open spec fn function_control_holds(value: u8, config: &Pcm4104Config) -> bool {
    &&& value & 0b11 == config.de_emphasis.code()
    &&& (value >> 2) & 0b1 == config.output_phase.code()
    &&& bit(value, 3) == config.zero_data_mute
    &&& value >> 4 == if config.soft_mute { 0b1111u8 } else { 0b0000u8 }
}

/// The function control register encodes each setting in its own field, and
/// soft mute raises the mute bits of all four channels together.
pub proof fn lemma_function_control_fields(config: &Pcm4104Config)
    ensures
        function_control_holds(spec_function_control(config), config),
{
    let d = config.de_emphasis.code();
    let p = config.output_phase.code();
    let z: u8 = if config.zero_data_mute { 0b1 } else { 0b0 };
    let m: u8 = if config.soft_mute { 0b1111 } else { 0b0000 };
    assert({
        let value = d | (p << 2) | (z << 3) | (m << 4);
        &&& value & 0b11 == d
        &&& (value >> 2) & 0b1 == p
        &&& ((value >> 3) & 1 == 1) == (z == 1)
        &&& value >> 4 == m
    }) by (bit_vector)
        requires
            d <= 0b11,
            p <= 0b1,
            z <= 0b1,
            m == 0b1111 || m == 0b0000,
    ;
}

/// Computes the function control register for `config`.
#[verifier::when_used_as_spec(spec_function_control)]
pub fn function_control(config: &Pcm4104Config) -> (value: u8)
    ensures
        value == spec_function_control(config),
        function_control_holds(value, config),
{
    proof {
        lemma_function_control_fields(config);
    }
    let zero_data_mute: u8 = if config.zero_data_mute { 0b1 } else { 0b0 };
    let channel_mutes: u8 = if config.soft_mute { 0b1111 } else { 0b0000 };
    config.de_emphasis.code() | (config.output_phase.code() << 2) | (zero_data_mute << 3) | (
    channel_mutes << 4)
}

/// The system control register for `config`.
pub open spec fn spec_system_control(config: &Pcm4104Config) -> u8 {
    let power_down: u8 = if config.power_down { 0b11 } else { 0b00 };
    config.sampling_mode.code() | (power_down << 2)
}

/// What each field of a system control `value` holds when it encodes
/// `config`; the bits above the fields are clear.
pub open spec fn system_control_holds(value: u8, config: &Pcm4104Config) -> bool {
    &&& value & 0b11 == config.sampling_mode.code()
    &&& (value >> 2) & 0b11 == if config.power_down { 0b11u8 } else { 0b00u8 }
    &&& value >> 4 == 0
}

/// The system control register encodes the sampling mode in its low field,
/// and power down raises the bits of both channel pairs together.
pub proof fn lemma_system_control_fields(config: &Pcm4104Config)
    ensures
        system_control_holds(spec_system_control(config), config),
{
    let s = config.sampling_mode.code();
    let p: u8 = if config.power_down { 0b11 } else { 0b00 };
    assert({
        let value = s | (p << 2);
        &&& value & 0b11 == s
        &&& (value >> 2) & 0b11 == p
        &&& value >> 4 == 0
    }) by (bit_vector)
        requires
            s <= 0b11,
            p <= 0b11,
    ;
}

/// Computes the system control register for `config`.
#[verifier::when_used_as_spec(spec_system_control)]
pub fn system_control(config: &Pcm4104Config) -> (value: u8)
    ensures
        value == spec_system_control(config),
        system_control_holds(value, config),
{
    proof {
        lemma_system_control_fields(config);
    }
    let power_down: u8 = if config.power_down { 0b11 } else { 0b00 };
    config.sampling_mode.code() | (power_down << 2)
}

/// The audio serial port control register for `config`.
pub open spec fn spec_audio_serial_port_control(config: &Pcm4104Config) -> u8 {
    config.audio_data_format.code() | (config.lrck_polarity.code() << 4) | (
    config.bck_sampling_edge.code() << 5)
}

/// What each field of an audio serial port control `value` holds when it
/// encodes `config`; bit 3 and the bits above the fields are clear.
pub open spec fn audio_serial_port_control_holds(value: u8, config: &Pcm4104Config) -> bool {
    &&& value & 0b111 == config.audio_data_format.code()
    &&& !bit(value, 3)
    &&& (value >> 4) & 0b1 == config.lrck_polarity.code()
    &&& (value >> 5) & 0b1 == config.bck_sampling_edge.code()
    &&& value >> 6 == 0
}

/// The audio serial port control register encodes each setting in its own
/// field.
pub proof fn lemma_audio_serial_port_control_fields(config: &Pcm4104Config)
    ensures
        audio_serial_port_control_holds(spec_audio_serial_port_control(config), config),
{
    let f = config.audio_data_format.code();
    let l = config.lrck_polarity.code();
    let b = config.bck_sampling_edge.code();
    assert({
        let value = f | (l << 4) | (b << 5);
        &&& value & 0b111 == f
        &&& !((value >> 3) & 1 == 1)
        &&& (value >> 4) & 0b1 == l
        &&& (value >> 5) & 0b1 == b
        &&& value >> 6 == 0
    }) by (bit_vector)
        requires
            f <= 0b111,
            l <= 0b1,
            b <= 0b1,
    ;
}

/// Computes the audio serial port control register for `config`.
#[verifier::when_used_as_spec(spec_audio_serial_port_control)]
pub fn audio_serial_port_control(config: &Pcm4104Config) -> (value: u8)
    ensures
        value == spec_audio_serial_port_control(config),
        audio_serial_port_control_holds(value, config),
{
    proof {
        lemma_audio_serial_port_control_fields(config);
    }
    config.audio_data_format.code() | (config.lrck_polarity.code() << 4) | (
    config.bck_sampling_edge.code() << 5)
}

/// Address of the attenuation register of `channel`.
pub open spec fn spec_attenuation_register(channel: OutputChannel) -> u8 {
    match channel {
        OutputChannel::Channel1 => 1,
        OutputChannel::Channel2 => 2,
        OutputChannel::Channel3 => 3,
        OutputChannel::Channel4 => 4,
    }
}

/// Address of the attenuation register of `channel`: each channel has a
/// register of its own, the first channel's at address 1.
#[verifier::when_used_as_spec(spec_attenuation_register)]
pub fn attenuation_register(channel: OutputChannel) -> (addr: u8)
    ensures
        addr == spec_attenuation_register(channel),
        addr == 1 + channel.index(),
        addr <= MAX_ADDRESS,
{
    match channel {
        OutputChannel::Channel1 => 1,
        OutputChannel::Channel2 => 2,
        OutputChannel::Channel3 => 3,
        OutputChannel::Channel4 => 4,
    }
}

/// Position of the mute bit of `channel` in the function control register.
pub open spec fn mute_bit(channel: OutputChannel) -> u8 {
    match channel {
        OutputChannel::Channel1 => 4,
        OutputChannel::Channel2 => 5,
        OutputChannel::Channel3 => 6,
        OutputChannel::Channel4 => 7,
    }
}

/// The function control `value` with the mute bit of `channel` set or
/// cleared.
pub open spec fn spec_with_mute(value: u8, channel: OutputChannel, mute: bool) -> u8 {
    if mute {
        value | (1u8 << mute_bit(channel))
    } else {
        value & !(1u8 << mute_bit(channel))
    }
}

/// Changing the mute of a channel changes the bit of that channel and no
/// other bit of the register.
pub proof fn lemma_with_mute_bits(value: u8, channel: OutputChannel, mute: bool)
    ensures
        mute_bit(channel) == 4 + channel.index(),
        forall|position: u8|
            position < 8 ==> #[trigger] bit(spec_with_mute(value, channel, mute), position) == if position
                == mute_bit(channel) {
                mute
            } else {
                bit(value, position)
            },
{
    let at = mute_bit(channel);
    let updated = spec_with_mute(value, channel, mute);
    assert forall|position: u8| position < 8 implies bit(updated, position) == if position == at {
        mute
    } else {
        bit(value, position)
    } by {
        if mute {
            assert(((value | (1u8 << at)) >> position) & 1 == if position == at {
                1u8
            } else {
                (value >> position) & 1
            }) by (bit_vector)
                requires
                    at < 8,
                    position < 8,
            ;
        } else {
            assert(((value & !(1u8 << at)) >> position) & 1 == if position == at {
                0u8
            } else {
                (value >> position) & 1
            }) by (bit_vector)
                requires
                    at < 8,
                    position < 8,
            ;
        }
    }
}

/// Sets or clears the mute bit of `channel` in the function control
/// `value`, leaving the rest of the register as it is.
#[verifier::when_used_as_spec(spec_with_mute)]
pub fn with_mute(value: u8, channel: OutputChannel, mute: bool) -> (updated: u8)
    ensures
        updated == spec_with_mute(value, channel, mute),
        forall|position: u8|
            position < 8 ==> #[trigger] bit(updated, position) == if position == mute_bit(channel) {
                mute
            } else {
                bit(value, position)
            },
{
    proof {
        lemma_with_mute_bits(value, channel, mute);
    }
    let at: u8 = match channel {
        OutputChannel::Channel1 => 4,
        OutputChannel::Channel2 => 5,
        OutputChannel::Channel3 => 6,
        OutputChannel::Channel4 => 7,
    };
    let mask: u8 = 1u8 << at;
    if mute {
        value | mask
    } else {
        value & !mask
    }
}

/// Position of the power-down bit that `channel` shares with the other
/// channel of its pair in the system control register. Channels 1 and 2
/// form one pair, channels 3 and 4 the other.
pub open spec fn power_down_bit(channel: OutputChannel) -> u8 {
    match channel {
        OutputChannel::Channel1 | OutputChannel::Channel2 => 2,
        OutputChannel::Channel3 | OutputChannel::Channel4 => 3,
    }
}

/// The system control `value` with the power-down bit of the pair of
/// `channel` set or cleared.
pub open spec fn spec_with_power_down(value: u8, channel: OutputChannel, down: bool) -> u8 {
    if down {
        value | (1u8 << power_down_bit(channel))
    } else {
        value & !(1u8 << power_down_bit(channel))
    }
}

/// Changing the power state of a channel changes the bit of its pair and no
/// other bit of the register.
pub proof fn lemma_with_power_down_bits(value: u8, channel: OutputChannel, down: bool)
    ensures
        forall|position: u8|
            position < 8 ==> #[trigger] bit(spec_with_power_down(value, channel, down), position)
                == if position == power_down_bit(channel) {
                down
            } else {
                bit(value, position)
            },
{
    let at = power_down_bit(channel);
    let updated = spec_with_power_down(value, channel, down);
    assert forall|position: u8| position < 8 implies bit(updated, position) == if position == at {
        down
    } else {
        bit(value, position)
    } by {
        if down {
            assert(((value | (1u8 << at)) >> position) & 1 == if position == at {
                1u8
            } else {
                (value >> position) & 1
            }) by (bit_vector)
                requires
                    at < 8,
                    position < 8,
            ;
        } else {
            assert(((value & !(1u8 << at)) >> position) & 1 == if position == at {
                0u8
            } else {
                (value >> position) & 1
            }) by (bit_vector)
                requires
                    at < 8,
                    position < 8,
            ;
        }
    }
}

/// The two channels of a pair cannot be powered separately: asking for
/// either one gives the same register value.
pub proof fn lemma_power_down_pairs(value: u8, down: bool)
    ensures
        spec_with_power_down(value, OutputChannel::Channel1, down) == spec_with_power_down(
            value,
            OutputChannel::Channel2,
            down,
        ),
        spec_with_power_down(value, OutputChannel::Channel3, down) == spec_with_power_down(
            value,
            OutputChannel::Channel4,
            down,
        ),
{
}

/// Sets or clears the power-down bit of the pair that `channel` belongs to
/// in the system control `value`, leaving the rest of the register as it
/// is. The other channel of the pair changes its power state with it.
#[verifier::when_used_as_spec(spec_with_power_down)]
pub fn with_power_down(value: u8, channel: OutputChannel, down: bool) -> (updated: u8)
    ensures
        updated == spec_with_power_down(value, channel, down),
        forall|position: u8|
            position < 8 ==> #[trigger] bit(updated, position) == if position == power_down_bit(
                channel,
            ) {
                down
            } else {
                bit(value, position)
            },
{
    proof {
        lemma_with_power_down_bits(value, channel, down);
    }
    let pair: u8 = match channel {
        OutputChannel::Channel1 | OutputChannel::Channel2 => 0b01,
        OutputChannel::Channel3 | OutputChannel::Channel4 => 0b10,
    };
    let mask: u8 = pair << 2;
    assert(mask == 1u8 << power_down_bit(channel)) by {
        assert(0b10u8 << 2 == 1u8 << 3) by (bit_vector);
    }
    if down {
        value | mask
    } else {
        value & !mask
    }
}

} // verus!
