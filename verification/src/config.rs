//! Configuration values and the codes the device knows them by.

use vstd::prelude::*;

verus! {

/// Sampling mode selection.
#[derive(Debug, Clone, Copy, PartialEq, Eq, Structural)]
pub enum SamplingMode {
    /// Single Rate.
    SingleRate,
    /// Dual Rate.
    DualRate,
    /// Quad Rate.
    QuadRate,
}

impl SamplingMode {
    /// The two-bit code of the mode.
    pub open spec fn spec_code(self) -> u8 {
        match self {
            SamplingMode::SingleRate => 0b00,
            SamplingMode::DualRate => 0b01,
            SamplingMode::QuadRate => 0b10,
        }
    }

    /// The two-bit code of the mode.
    #[verifier::when_used_as_spec(spec_code)]
    pub fn code(self) -> (code: u8)
        ensures
            code == self.spec_code(),
            code <= 0b10,
    {
        match self {
            SamplingMode::SingleRate => 0b00,
            SamplingMode::DualRate => 0b01,
            SamplingMode::QuadRate => 0b10,
        }
    }
}

impl Default for SamplingMode {
    fn default() -> (mode: Self)
        ensures
            mode == SamplingMode::SingleRate,
    {
        SamplingMode::SingleRate
    }
}

/// Audio data format selection.
#[derive(Debug, Clone, Copy, PartialEq, Eq, Structural)]
pub enum AudioDataFormat {
    /// 24-bit left justified.
    LeftJustified24Bit,
    /// 24-bit I2S.
    I2s24Bit,
    /// TDM with zero BCK delay.
    TdmZeroBckDelay,
    /// TDM with one BCK delay.
    TdmOneBckDelay,
    /// 24-bit right justified.
    RightJustified24Bit,
    /// 20-bit right justified.
    RightJustified20Bit,
    /// 18-bit right justified.
    RightJustified18Bit,
    /// 16-bit right justified.
    RightJustified16Bit,
}

impl AudioDataFormat {
    /// The three-bit code of the format.
    pub open spec fn spec_code(self) -> u8 {
        match self {
            AudioDataFormat::LeftJustified24Bit => 0b000,
            AudioDataFormat::I2s24Bit => 0b001,
            AudioDataFormat::TdmZeroBckDelay => 0b010,
            AudioDataFormat::TdmOneBckDelay => 0b011,
            AudioDataFormat::RightJustified24Bit => 0b100,
            AudioDataFormat::RightJustified20Bit => 0b101,
            AudioDataFormat::RightJustified18Bit => 0b110,
            AudioDataFormat::RightJustified16Bit => 0b111,
        }
    }

    /// The three-bit code of the format.
    #[verifier::when_used_as_spec(spec_code)]
    pub fn code(self) -> (code: u8)
        ensures
            code == self.spec_code(),
            code <= 0b111,
    {
        match self {
            AudioDataFormat::LeftJustified24Bit => 0b000,
            AudioDataFormat::I2s24Bit => 0b001,
            AudioDataFormat::TdmZeroBckDelay => 0b010,
            AudioDataFormat::TdmOneBckDelay => 0b011,
            AudioDataFormat::RightJustified24Bit => 0b100,
            AudioDataFormat::RightJustified20Bit => 0b101,
            AudioDataFormat::RightJustified18Bit => 0b110,
            AudioDataFormat::RightJustified16Bit => 0b111,
        }
    }
}

impl Default for AudioDataFormat {
    fn default() -> (format: Self)
        ensures
            format == AudioDataFormat::LeftJustified24Bit,
    {
        AudioDataFormat::LeftJustified24Bit
    }
}

/// LRCK polarity selection.
#[derive(Debug, Clone, Copy, PartialEq, Eq, Structural)]
pub enum LrckPolarity {
    /// Normal polarity.
    Normal,
    /// Inverted polarity.
    Inverted,
}

impl LrckPolarity {
    /// The one-bit code of the polarity.
    pub open spec fn spec_code(self) -> u8 {
        match self {
            LrckPolarity::Normal => 0b0,
            LrckPolarity::Inverted => 0b1,
        }
    }

    /// The one-bit code of the polarity.
    #[verifier::when_used_as_spec(spec_code)]
    pub fn code(self) -> (code: u8)
        ensures
            code == self.spec_code(),
            code <= 0b1,
    {
        match self {
            LrckPolarity::Normal => 0b0,
            LrckPolarity::Inverted => 0b1,
        }
    }
}

impl Default for LrckPolarity {
    fn default() -> (polarity: Self)
        ensures
            polarity == LrckPolarity::Normal,
    {
        LrckPolarity::Normal
    }
}

/// Bitclock sampling edge selection.
#[derive(Debug, Clone, Copy, PartialEq, Eq, Structural)]
pub enum BckSamplingEdge {
    /// Rising edge.
    Rising,
    /// Falling edge.
    Falling,
}

impl BckSamplingEdge {
    /// The one-bit code of the edge.
    pub open spec fn spec_code(self) -> u8 {
        match self {
            BckSamplingEdge::Rising => 0b0,
            BckSamplingEdge::Falling => 0b1,
        }
    }

    /// The one-bit code of the edge.
    #[verifier::when_used_as_spec(spec_code)]
    pub fn code(self) -> (code: u8)
        ensures
            code == self.spec_code(),
            code <= 0b1,
    {
        match self {
            BckSamplingEdge::Rising => 0b0,
            BckSamplingEdge::Falling => 0b1,
        }
    }
}

impl Default for BckSamplingEdge {
    fn default() -> (edge: Self)
        ensures
            edge == BckSamplingEdge::Rising,
    {
        BckSamplingEdge::Rising
    }
}

/// De-Emphasis selection.
#[derive(Debug, Clone, Copy, PartialEq, Eq, Structural)]
pub enum DeEmphasis {
    /// Disabled.
    Disabled,
    /// Enabled for fs = 48kHz.
    Fs48Khz,
    /// Enabled for fs = 44.1kHz.
    Fs44_1Khz,
    /// Enabled for fs = 32kHz.
    Fs32Khz,
}

impl DeEmphasis {
    /// The two-bit code of the filter setting.
    pub open spec fn spec_code(self) -> u8 {
        match self {
            DeEmphasis::Disabled => 0b00,
            DeEmphasis::Fs48Khz => 0b01,
            DeEmphasis::Fs44_1Khz => 0b10,
            DeEmphasis::Fs32Khz => 0b11,
        }
    }

    /// The two-bit code of the filter setting.
    #[verifier::when_used_as_spec(spec_code)]
    pub fn code(self) -> (code: u8)
        ensures
            code == self.spec_code(),
            code <= 0b11,
    {
        match self {
            DeEmphasis::Disabled => 0b00,
            DeEmphasis::Fs48Khz => 0b01,
            DeEmphasis::Fs44_1Khz => 0b10,
            DeEmphasis::Fs32Khz => 0b11,
        }
    }
}

impl Default for DeEmphasis {
    fn default() -> (de_emphasis: Self)
        ensures
            de_emphasis == DeEmphasis::Disabled,
    {
        DeEmphasis::Disabled
    }
}

/// Output phase selection.
#[derive(Debug, Clone, Copy, PartialEq, Eq, Structural)]
pub enum OutputPhase {
    /// Non-inverted.
    NonInverted,
    /// Inverted.
    Inverted,
}

impl OutputPhase {
    /// The one-bit code of the phase.
    pub open spec fn spec_code(self) -> u8 {
        match self {
            OutputPhase::NonInverted => 0b0,
            OutputPhase::Inverted => 0b1,
        }
    }

    /// The one-bit code of the phase.
    #[verifier::when_used_as_spec(spec_code)]
    pub fn code(self) -> (code: u8)
        ensures
            code == self.spec_code(),
            code <= 0b1,
    {
        match self {
            OutputPhase::NonInverted => 0b0,
            OutputPhase::Inverted => 0b1,
        }
    }
}

impl Default for OutputPhase {
    fn default() -> (phase: Self)
        ensures
            phase == OutputPhase::NonInverted,
    {
        OutputPhase::NonInverted
    }
}

/// Output channel selection.
#[derive(Debug, Clone, Copy, PartialEq, Eq, Structural)]
pub enum OutputChannel {
    /// Output channel 1.
    Channel1,
    /// Output channel 2.
    Channel2,
    /// Output channel 3.
    Channel3,
    /// Output channel 4.
    Channel4,
}

impl OutputChannel {
    /// The position of the channel among the four, counted from zero.
    pub open spec fn index(self) -> u8 {
        match self {
            OutputChannel::Channel1 => 0,
            OutputChannel::Channel2 => 1,
            OutputChannel::Channel3 => 2,
            OutputChannel::Channel4 => 3,
        }
    }
}

/// Driver configuration settings.
#[derive(Debug, Clone, Copy)]
pub struct Pcm4104Config {
    /// Sampling mode.
    pub sampling_mode: SamplingMode,
    /// Audio data format.
    pub audio_data_format: AudioDataFormat,
    /// LRCK polarity.
    pub lrck_polarity: LrckPolarity,
    /// BCK sampling edge.
    pub bck_sampling_edge: BckSamplingEdge,
    /// Digital de-emphasis.
    pub de_emphasis: DeEmphasis,
    /// Output phase.
    pub output_phase: OutputPhase,
    /// Zero data mute.
    pub zero_data_mute: bool,
    /// Soft mute.
    pub soft_mute: bool,
    /// Power down.
    pub power_down: bool,
}

impl Pcm4104Config {
    /// The device filters de-emphasis at single rate only: a configuration
    /// is accepted when its de-emphasis is disabled or its sampling mode is
    /// single rate.
    pub open spec fn de_emphasis_available(&self) -> bool {
        self.de_emphasis == DeEmphasis::Disabled || self.sampling_mode == SamplingMode::SingleRate
    }
}

impl Default for Pcm4104Config {
    fn default() -> (config: Self)
        ensures
            config.sampling_mode == SamplingMode::SingleRate,
            config.audio_data_format == AudioDataFormat::LeftJustified24Bit,
            config.lrck_polarity == LrckPolarity::Normal,
            config.bck_sampling_edge == BckSamplingEdge::Rising,
            config.de_emphasis == DeEmphasis::Disabled,
            config.output_phase == OutputPhase::NonInverted,
            !config.zero_data_mute,
            !config.soft_mute,
            !config.power_down,
            config.de_emphasis_available(),
    {
        Pcm4104Config {
            sampling_mode: SamplingMode::SingleRate,
            audio_data_format: AudioDataFormat::LeftJustified24Bit,
            lrck_polarity: LrckPolarity::Normal,
            bck_sampling_edge: BckSamplingEdge::Rising,
            de_emphasis: DeEmphasis::Disabled,
            output_phase: OutputPhase::NonInverted,
            zero_data_mute: false,
            soft_mute: false,
            power_down: false,
        }
    }
}

} // verus!
