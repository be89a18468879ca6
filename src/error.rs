//! The error type shared by every capability binding.

use vstd::prelude::*;

verus! {

/// A failure reported by the host while it carried out a dispatch.
#[derive(Clone, Debug, PartialEq, Eq)]
pub struct HostError {
    /// The host's description of what went wrong.
    pub message: String,
}

/// Why a capability operation did not produce its result.
#[derive(Clone, Debug, PartialEq, Eq)]
pub enum Error {
    /// The dispatch itself failed; this is the host's own report.
    Host(HostError),
    /// The host answered, but its reply is not the record the operation expects.
    Decode(String),
}

} // verus!
