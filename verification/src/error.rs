//! What can go wrong while a payload is normalised.

use vstd::prelude::*;

verus! {

/// Why a payload, or one entry of it, was not normalised.
#[derive(Clone, Copy, Debug, PartialEq, Eq, Structural)]
pub enum FormatError {
    /// The payload as a whole does not have the shape that the adapter
    /// expects.
    MalformedPayload,
    /// One device entry of a batch is invalid. The batch goes on without it.
    PerEntryCorruption,
}

} // verus!
