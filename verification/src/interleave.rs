//! Delta coding over byte streams, used by the array transposition codec to
//! make interleaved data more compressible. Each output byte is the wrapping
//! difference between a byte of the input and its predecessor, so that runs of
//! slowly-varying values become runs of small deltas.
use vstd::prelude::*;

verus! {

/// The byte at position `i` of the delta-encoded form of `s`: the first byte
/// is kept, every later byte is the wrapping difference to its predecessor.
pub open spec fn delta_encoded_at(s: Seq<u8>, i: int) -> u8 {
    if i == 0 {
        s[0]
    } else {
        vstd::wrapping::u8_specs::wrapping_sub(s[i], s[i - 1])
    }
}

/// The byte at position `i` of the delta-decoded form of `s`: the wrapping
/// running sum of the deltas up to and including position `i`.
pub open spec fn delta_decoded_at(s: Seq<u8>, i: int) -> u8
    decreases i,
{
    if i <= 0 {
        s[0]
    } else {
        vstd::wrapping::u8_specs::wrapping_add(delta_decoded_at(s, i - 1), s[i])
    }
}

/// The delta-encoded form of a whole byte sequence.
pub open spec fn delta_encoded(s: Seq<u8>) -> Seq<u8> {
    Seq::new(s.len(), |i: int| delta_encoded_at(s, i))
}

/// The delta-decoded form of a whole byte sequence.
pub open spec fn delta_decoded(s: Seq<u8>) -> Seq<u8> {
    Seq::new(s.len(), |i: int| delta_decoded_at(s, i))
}

/// Replaces every byte with its wrapping difference to the previous byte.
pub fn encode_delta_dif(data: &mut Vec<u8>)
    ensures
        final(data)@ == delta_encoded(old(data)@),
{
    let mut prev: u8 = 0;
    let mut i: usize = 0;
    while i < data.len()
        invariant
            i <= data@.len(),
            data@.len() == old(data)@.len(),
            prev == if i == 0 { 0u8 } else { old(data)@[i - 1] },
            forall|j: int| 0 <= j < i ==> data@[j] == delta_encoded_at(old(data)@, j),
            forall|j: int| i <= j < data@.len() ==> data@[j] == old(data)@[j],
        decreases data@.len() - i,
    {
        let v = data[i];
        data[i] = v.wrapping_sub(prev);
        prev = v;
        i = i + 1;
    }
    assert(data@ =~= delta_encoded(old(data)@));
}

/// Replaces every byte with the wrapping running sum of the bytes so far,
/// undoing `encode_delta_dif`.
pub fn decode_delta_dif(data: &mut Vec<u8>)
    ensures
        final(data)@ == delta_decoded(old(data)@),
{
    let mut prev: u8 = 0;
    let mut i: usize = 0;
    while i < data.len()
        invariant
            i <= data@.len(),
            data@.len() == old(data)@.len(),
            prev == if i == 0 { 0u8 } else { delta_decoded_at(old(data)@, i - 1) },
            forall|j: int| 0 <= j < i ==> data@[j] == delta_decoded_at(old(data)@, j),
            forall|j: int| i <= j < data@.len() ==> data@[j] == old(data)@[j],
        decreases data@.len() - i,
    {
        let v = data[i];
        let decoded = prev.wrapping_add(v);
        data[i] = decoded;
        prev = decoded;
        i = i + 1;
    }
    assert(data@ =~= delta_decoded(old(data)@));
}

/// Decoding a delta-encoded stream restores the original stream.
pub proof fn lemma_delta_round_trip(s: Seq<u8>)
    ensures
        delta_decoded(delta_encoded(s)) == s,
{
    assert forall|i: int| 0 <= i < s.len() implies delta_decoded_at(delta_encoded(s), i) == s[i] by {
        lemma_delta_decode_encode_at(s, i);
    }
    assert(delta_decoded(delta_encoded(s)) =~= s);
}

proof fn lemma_delta_decode_encode_at(s: Seq<u8>, i: int)
    requires
        0 <= i < s.len(),
    ensures
        delta_decoded_at(delta_encoded(s), i) == s[i],
    decreases i,
{
    if i > 0 {
        lemma_delta_decode_encode_at(s, i - 1);
    }
}

/// Why a stream could not be deinterleaved.
#[derive(Debug, Clone, Copy, PartialEq, Eq, Structural)]
pub enum InterleaveErrorReason {
    StreamTooShort,
    TrailingData,
    CorruptData,
    StreamTooLarge,
}

/// Describes a stream whose length does not fit the expected element layout.
#[derive(Debug, Clone, Copy, PartialEq, Eq, Structural)]
pub struct InterleaveError {
    pub expected_size: usize,
    pub actual_size: usize,
    pub reason: InterleaveErrorReason,
}

impl InterleaveError {
    pub fn new(expected_size: usize, actual_size: usize, reason: InterleaveErrorReason) -> (r:
        InterleaveError)
        ensures
            r.expected_size == expected_size,
            r.actual_size == actual_size,
            r.reason == reason,
    {
        InterleaveError { expected_size, actual_size, reason }
    }

    pub fn get_reason(&self) -> (r: InterleaveErrorReason)
        ensures
            r == self.reason,
    {
        self.reason
    }
}

} // verus!
