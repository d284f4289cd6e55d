//! Errors of the virtualization layer.

use vstd::prelude::*;

verus! {

/// Why an operation of the virtualization layer failed.
#[derive(Debug, Clone, Copy, PartialEq, Eq, Structural)]
pub enum RvmError {
    /// The hart lacks the hardware feature that was asked for.
    Unsupported,
    /// No physical frame is left.
    OutOfMemory,
}

/// Result of an operation of the virtualization layer.
pub type RvmResult<T = ()> = Result<T, RvmError>;

} // verus!
