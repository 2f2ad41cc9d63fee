//! The platform timestamp as stored in the build tool's timestamp file: a
//! 64-bit little-endian value read from the file's first bytes.
use vstd::bytes::{spec_u64_from_le_bytes, u64_from_le_bytes};
use vstd::prelude::*;
use vstd::slice::slice_subrange;

verus! {

/// A file modification timestamp, as the platform counts it.
#[derive(Debug, Clone, Copy, PartialEq, Eq, Structural)]
pub struct Timestamp(pub u64);

impl Timestamp {
    /// Reads a timestamp from the head of a buffer.
    pub fn from_buffer(b: &Vec<u8>) -> (r: Timestamp)
        requires
            b@.len() >= 8,
        ensures
            r.0 == spec_u64_from_le_bytes(b@.subrange(0, 8)),
    {
        let w = slice_subrange(b.as_slice(), 0, 8);
        Timestamp(u64_from_le_bytes(w))
    }

    /// Whether another observation is strictly later than this one.
    pub fn is_before(&self, other: u64) -> (r: bool)
        ensures
            r == (other > self.0),
    {
        other > self.0
    }
}

} // verus!
