//! Errors of decoding.
use vstd::prelude::*;

verus! {

/// Why a buffer could not be decoded.
#[derive(Debug, Clone, Copy, PartialEq, Eq, Structural)]
pub enum DecodeError {
    /// The buffer ends before a field that the message needs.
    Truncated,
    /// A process event names a kind that this library does not know; the raw
    /// kind is kept.
    UnknownEvent(u32),
}

} // verus!
