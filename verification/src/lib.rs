//! Register-level control of the PCM4104 four-channel audio DAC.
//!
//! The crate holds everything the driver decides: how a configuration is
//! packed into the control registers, which register accesses an operation
//! consists of and in which order, and how each access is framed on the
//! serial bus. It never touches a bus itself. Every operation is handed out
//! as a [`Step`]: the next register access to perform, or the operation's
//! result. The owner of the bus performs the access and hands its outcome
//! back, which yields the following step.

pub mod access;
pub mod config;
pub mod device;
pub mod driver;
pub mod error;
pub mod registers;
pub mod step;

pub use config::{
    AudioDataFormat, BckSamplingEdge, DeEmphasis, LrckPolarity, OutputChannel, OutputPhase,
    Pcm4104Config, SamplingMode,
};
pub use driver::Pcm4104;
pub use error::Error;
pub use access::{RegisterRead, RegisterWrite};
pub use step::{AfterRead, AfterWrite, Step};
