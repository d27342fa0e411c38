//! The ways an operation can fail.

use vstd::prelude::*;

verus! {

/// Errors returned by the driver.
#[derive(Debug, Clone, Copy, PartialEq, Eq, Structural)]
pub enum Error {
    /// SPI communication error. Whatever the transport reported is dropped;
    /// only the fact of the failure is kept.
    SpiError,
    /// Register address out of range.
    InvalidRegisterAddress,
    /// De-emphasis not available in the selected sampling mode.
    DeEmphasisNotAvailable,
}

} // verus!
