//! The ways a register read can fail.

use vstd::prelude::*;

verus! {

/// Failure of a register read, named after the bus phase that failed.
///
/// `E` is the cause that the bus reported.
#[derive(Copy, Clone, Debug, Ord, PartialOrd, Eq, PartialEq)]
pub enum SoilMoistureSensorError<E> {
    /// A combined write-read bus operation failed. No transaction of this
    /// crate is built from such an operation, so none reports it.
    WriteReadI2CError,
    /// Writing the register pointer failed; carries the cause.
    WriteI2CError(E),
    /// The pointer was written, but reading the data back failed.
    ReadI2CError,
}

} // verus!
