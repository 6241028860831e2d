//! The one way in which decoding can fail.
use vstd::prelude::*;

verus! {

/// Why a byte buffer could not be decoded. The size of the buffer is all
/// that is ever checked.
#[derive(Debug, Clone, Copy, PartialEq, Eq)]
pub enum DecodeError {
    /// The buffer does not have the size that its layout fixes.
    TruncatedOrMalformedRecord,
}

} // verus!
