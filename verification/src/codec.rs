//! The binary archive encoding of the two on-disk caches: the executable
//! identity cache and the dispatch-table cache. Integers are little-endian;
//! a string is its character count followed by one double word per
//! character; a list is its element count followed by the elements. A decode
//! either yields a value whose re-encoding is the input, or fails, which the
//! cache owners treat as corruption and answer by regeneration.
use crate::identity::{ExecutableData, ExecutableEntry, WriteTime};
use crate::vtable::{entries_model, push_char, VtableEntries, VtableKey, VtableRTTICache};
use vstd::bytes::{
    spec_u32_from_le_bytes, spec_u32_to_le_bytes, spec_u64_from_le_bytes, spec_u64_to_le_bytes,
    u32_from_le_bytes, u32_to_le_bytes, u64_from_le_bytes, u64_to_le_bytes,
};
use vstd::prelude::*;
use vstd::slice::slice_subrange;
use vstd::utf8::{char_is_scalar, char_u32_cast, is_scalar};

verus! {

/// Relies on char::from_u32: yields the character with this scalar value,
/// and None exactly for surrogates and values past the Unicode maximum.
#[verifier::external_body]
fn char_from_u32(v: u32) -> (r: Option<char>)
    ensures
        r is Some <==> is_scalar(v),
        r is Some ==> r.unwrap() as u32 == v,
{
    char::from_u32(v)
}

// ---- Encoding, as mathematical byte sequences ----
pub open spec fn spec_enc_u32(x: u32) -> Seq<u8> {
    spec_u32_to_le_bytes(x)
}

pub open spec fn spec_enc_u64(x: u64) -> Seq<u8> {
    spec_u64_to_le_bytes(x)
}

pub open spec fn spec_enc_chars(s: Seq<char>) -> Seq<u8>
    decreases s.len(),
{
    if s.len() == 0 {
        Seq::empty()
    } else {
        spec_enc_chars(s.drop_last()) + spec_enc_u32(s.last() as u32)
    }
}

pub open spec fn spec_enc_str(s: Seq<char>) -> Seq<u8> {
    spec_enc_u64(s.len() as u64) + spec_enc_chars(s)
}

/// One identity entry: path, write time, digest.
pub open spec fn spec_enc_id_entry(e: (Seq<char>, u64, u64)) -> Seq<u8> {
    spec_enc_str(e.0) + spec_enc_u64(e.1) + spec_enc_u64(e.2)
}

pub open spec fn spec_enc_id_entries(s: Seq<(Seq<char>, u64, u64)>) -> Seq<u8>
    decreases s.len(),
{
    if s.len() == 0 {
        Seq::empty()
    } else {
        spec_enc_id_entries(s.drop_last()) + spec_enc_id_entry(s.last())
    }
}

/// The identity cache file: entry count, then the entries.
pub open spec fn spec_enc_id_data(s: Seq<(Seq<char>, u64, u64)>) -> Seq<u8> {
    spec_enc_u64(s.len() as u64) + spec_enc_id_entries(s)
}

/// One dispatch-table finding: decorated name, struct offset, address.
pub open spec fn spec_enc_vt_entry(e: ((Seq<char>, u32), u64)) -> Seq<u8> {
    spec_enc_str(e.0.0) + spec_enc_u32(e.0.1) + spec_enc_u64(e.1)
}

pub open spec fn spec_enc_vt_entries(s: Seq<((Seq<char>, u32), u64)>) -> Seq<u8>
    decreases s.len(),
{
    if s.len() == 0 {
        Seq::empty()
    } else {
        spec_enc_vt_entries(s.drop_last()) + spec_enc_vt_entry(s.last())
    }
}

/// One cache slot: the executable digest, then its findings.
pub open spec fn spec_enc_vt_slot(e: (u64, Seq<((Seq<char>, u32), u64)>)) -> Seq<u8> {
    spec_enc_u64(e.0) + spec_enc_u64(e.1.len() as u64) + spec_enc_vt_entries(e.1)
}

pub open spec fn spec_enc_vt_slots(s: Seq<(u64, Seq<((Seq<char>, u32), u64)>)>) -> Seq<u8>
    decreases s.len(),
{
    if s.len() == 0 {
        Seq::empty()
    } else {
        spec_enc_vt_slots(s.drop_last()) + spec_enc_vt_slot(s.last())
    }
}

/// The dispatch-table cache file: slot count, then the slots.
pub open spec fn spec_enc_vt_cache(s: Seq<(u64, Seq<((Seq<char>, u32), u64)>)>) -> Seq<u8> {
    spec_enc_u64(s.len() as u64) + spec_enc_vt_slots(s)
}

// ---- Decoding, as mathematical functions ----
pub open spec fn spec_dec_u32(b: Seq<u8>, pos: int) -> Option<(u32, int)> {
    if 0 <= pos && pos + 4 <= b.len() {
        Some((spec_u32_from_le_bytes(b.subrange(pos, pos + 4)), pos + 4))
    } else {
        None
    }
}

pub open spec fn spec_dec_u64(b: Seq<u8>, pos: int) -> Option<(u64, int)> {
    if 0 <= pos && pos + 8 <= b.len() {
        Some((spec_u64_from_le_bytes(b.subrange(pos, pos + 8)), pos + 8))
    } else {
        None
    }
}

pub open spec fn spec_dec_chars(b: Seq<u8>, pos: int, n: nat) -> Option<(Seq<char>, int)>
    decreases n,
{
    if n == 0 {
        Some((Seq::empty(), pos))
    } else {
        match spec_dec_u32(b, pos) {
            None => None,
            Some((v, p1)) => if is_scalar(v) {
                match spec_dec_chars(b, p1, (n - 1) as nat) {
                    None => None,
                    Some((s, p2)) => Some((seq![v as char] + s, p2)),
                }
            } else {
                None
            },
        }
    }
}

pub open spec fn spec_dec_str(b: Seq<u8>, pos: int) -> Option<(Seq<char>, int)> {
    match spec_dec_u64(b, pos) {
        None => None,
        Some((n, p1)) => spec_dec_chars(b, p1, n as nat),
    }
}

pub open spec fn spec_dec_id_entry(b: Seq<u8>, pos: int) -> Option<((Seq<char>, u64, u64), int)> {
    match spec_dec_str(b, pos) {
        None => None,
        Some((p, p1)) => match spec_dec_u64(b, p1) {
            None => None,
            Some((t, p2)) => match spec_dec_u64(b, p2) {
                None => None,
                Some((h, p3)) => Some(((p, t, h), p3)),
            },
        },
    }
}

pub open spec fn spec_dec_id_entries(b: Seq<u8>, pos: int, n: nat) -> Option<
    (Seq<(Seq<char>, u64, u64)>, int),
>
    decreases n,
{
    if n == 0 {
        Some((Seq::empty(), pos))
    } else {
        match spec_dec_id_entry(b, pos) {
            None => None,
            Some((e, p1)) => match spec_dec_id_entries(b, p1, (n - 1) as nat) {
                None => None,
                Some((s, p2)) => Some((seq![e] + s, p2)),
            },
        }
    }
}

/// The identity cache read back from a whole file: every byte must belong to
/// the encoding.
pub open spec fn spec_dec_id_data(b: Seq<u8>) -> Option<Seq<(Seq<char>, u64, u64)>> {
    match spec_dec_u64(b, 0) {
        None => None,
        Some((n, p1)) => match spec_dec_id_entries(b, p1, n as nat) {
            None => None,
            Some((s, p2)) => if p2 == b.len() {
                Some(s)
            } else {
                None
            },
        },
    }
}

pub open spec fn spec_dec_vt_entry(b: Seq<u8>, pos: int) -> Option<(((Seq<char>, u32), u64), int)> {
    match spec_dec_str(b, pos) {
        None => None,
        Some((name, p1)) => match spec_dec_u32(b, p1) {
            None => None,
            Some((o, p2)) => match spec_dec_u64(b, p2) {
                None => None,
                Some((a, p3)) => Some((((name, o), a), p3)),
            },
        },
    }
}

pub open spec fn spec_dec_vt_entries(b: Seq<u8>, pos: int, n: nat) -> Option<
    (Seq<((Seq<char>, u32), u64)>, int),
>
    decreases n,
{
    if n == 0 {
        Some((Seq::empty(), pos))
    } else {
        match spec_dec_vt_entry(b, pos) {
            None => None,
            Some((e, p1)) => match spec_dec_vt_entries(b, p1, (n - 1) as nat) {
                None => None,
                Some((s, p2)) => Some((seq![e] + s, p2)),
            },
        }
    }
}

pub open spec fn spec_dec_vt_slot(b: Seq<u8>, pos: int) -> Option<
    ((u64, Seq<((Seq<char>, u32), u64)>), int),
> {
    match spec_dec_u64(b, pos) {
        None => None,
        Some((h, p1)) => match spec_dec_u64(b, p1) {
            None => None,
            Some((n, p2)) => match spec_dec_vt_entries(b, p2, n as nat) {
                None => None,
                Some((s, p3)) => Some(((h, s), p3)),
            },
        },
    }
}

pub open spec fn spec_dec_vt_slots(b: Seq<u8>, pos: int, n: nat) -> Option<
    (Seq<(u64, Seq<((Seq<char>, u32), u64)>)>, int),
>
    decreases n,
{
    if n == 0 {
        Some((Seq::empty(), pos))
    } else {
        match spec_dec_vt_slot(b, pos) {
            None => None,
            Some((e, p1)) => match spec_dec_vt_slots(b, p1, (n - 1) as nat) {
                None => None,
                Some((s, p2)) => Some((seq![e] + s, p2)),
            },
        }
    }
}

/// The dispatch-table cache read back from a whole file.
pub open spec fn spec_dec_vt_cache(b: Seq<u8>) -> Option<
    Seq<(u64, Seq<((Seq<char>, u32), u64)>)>,
> {
    match spec_dec_u64(b, 0) {
        None => None,
        Some((n, p1)) => match spec_dec_vt_slots(b, p1, n as nat) {
            None => None,
            Some((s, p2)) => if p2 == b.len() {
                Some(s)
            } else {
                None
            },
        },
    }
}


// ---- Structural lemmas ----
/// Splitting a window that holds a concatenation.
proof fn lemma_subrange_split(b: Seq<u8>, pos: int, x: Seq<u8>, y: Seq<u8>)
    requires
        0 <= pos,
        pos + x.len() + y.len() <= b.len(),
        b.subrange(pos, pos + x.len() + y.len()) == x + y,
    ensures
        b.subrange(pos, pos + x.len()) == x,
        b.subrange(pos + x.len(), pos + x.len() + y.len()) == y,
{
    vstd::bytes::lemma_auto_spec_u32_to_from_le_bytes();
    vstd::bytes::lemma_auto_spec_u64_to_from_le_bytes();
    assert forall|i: int| 0 <= i < x.len() implies b.subrange(pos, pos + x.len())[i] == x[i] by {
        assert(b.subrange(pos, pos + x.len() + y.len())[i] == (x + y)[i]);
    }
    assert(b.subrange(pos, pos + x.len()) =~= x);
    assert forall|i: int|
        0 <= i < y.len() implies b.subrange(pos + x.len(), pos + x.len() + y.len())[i] == y[i] by {
        assert(b.subrange(pos, pos + x.len() + y.len())[x.len() + i] == (x + y)[x.len() + i]);
        assert((x + y)[x.len() + i] == y[i]);
        assert(b.subrange(pos, pos + x.len() + y.len())[x.len() + i] == b[pos + x.len() + i]);
        assert(b.subrange(pos + x.len(), pos + x.len() + y.len())[i] == b[pos + x.len() + i]);
    }
    assert(b.subrange(pos + x.len(), pos + x.len() + y.len()) =~= y);
}

pub proof fn lemma_enc_chars_len(s: Seq<char>)
    ensures
        spec_enc_chars(s).len() == 4 * s.len(),
    decreases s.len(),
{
    vstd::bytes::lemma_auto_spec_u32_to_from_le_bytes();
    vstd::bytes::lemma_auto_spec_u64_to_from_le_bytes();
    if s.len() > 0 {
        lemma_enc_chars_len(s.drop_last());
    }
}

proof fn lemma_enc_chars_head(s: Seq<char>)
    requires
        s.len() > 0,
    ensures
        spec_enc_chars(s) == spec_enc_u32(s[0] as u32) + spec_enc_chars(s.drop_first()),
    decreases s.len(),
{
    vstd::bytes::lemma_auto_spec_u32_to_from_le_bytes();
    vstd::bytes::lemma_auto_spec_u64_to_from_le_bytes();
    if s.len() == 1 {
        assert(s.drop_last() =~= Seq::<char>::empty());
        assert(s.drop_first() =~= Seq::<char>::empty());
        assert(spec_enc_chars(s) =~= spec_enc_u32(s[0] as u32) + spec_enc_chars(s.drop_first()));
    } else {
        lemma_enc_chars_head(s.drop_last());
        assert(s.drop_last()[0] == s[0]);
        assert(s.drop_first().drop_last() =~= s.drop_last().drop_first());
        assert(s.drop_first().last() == s.last());
        assert(spec_enc_chars(s.drop_first()) == spec_enc_chars(s.drop_first().drop_last())
            + spec_enc_u32(s.drop_first().last() as u32));
        assert(spec_enc_chars(s) =~= spec_enc_u32(s[0] as u32) + spec_enc_chars(s.drop_first()));
    }
}

proof fn lemma_dec_enc_u32(b: Seq<u8>, pos: int, x: u32)
    requires
        0 <= pos,
        pos + 4 <= b.len(),
        b.subrange(pos, pos + 4) == spec_enc_u32(x),
    ensures
        spec_dec_u32(b, pos) == Some((x, pos + 4)),
{
    vstd::bytes::lemma_auto_spec_u32_to_from_le_bytes();
    assert(b.subrange(pos, pos + 4) == spec_u32_to_le_bytes(x));
    assert(spec_u32_from_le_bytes(spec_u32_to_le_bytes(x)) == x);
}

proof fn lemma_dec_enc_u64(b: Seq<u8>, pos: int, x: u64)
    requires
        0 <= pos,
        pos + 8 <= b.len(),
        b.subrange(pos, pos + 8) == spec_enc_u64(x),
    ensures
        spec_dec_u64(b, pos) == Some((x, pos + 8)),
{
    vstd::bytes::lemma_auto_spec_u64_to_from_le_bytes();
    assert(b.subrange(pos, pos + 8) == spec_u64_to_le_bytes(x));
    assert(spec_u64_from_le_bytes(spec_u64_to_le_bytes(x)) == x);
}

proof fn lemma_dec_enc_chars(b: Seq<u8>, pos: int, s: Seq<char>)
    requires
        0 <= pos,
        pos + 4 * s.len() <= b.len(),
        b.subrange(pos, pos + 4 * s.len()) == spec_enc_chars(s),
    ensures
        spec_dec_chars(b, pos, s.len()) == Some((s, pos + 4 * s.len())),
    decreases s.len(),
{
    vstd::bytes::lemma_auto_spec_u32_to_from_le_bytes();
    vstd::bytes::lemma_auto_spec_u64_to_from_le_bytes();
    if s.len() > 0 {
        lemma_enc_chars_head(s);
        lemma_enc_chars_len(s.drop_first());
        lemma_subrange_split(b, pos, spec_enc_u32(s[0] as u32), spec_enc_chars(s.drop_first()));
        lemma_dec_enc_u32(b, pos, s[0] as u32);
        char_is_scalar(s[0]);
        char_u32_cast(s[0], s[0] as u32);
        lemma_dec_enc_chars(b, pos + 4, s.drop_first());
        assert(seq![(s[0] as u32) as char] + s.drop_first() =~= s);
    }
}

proof fn lemma_dec_enc_str(b: Seq<u8>, pos: int, s: Seq<char>)
    requires
        0 <= pos,
        s.len() <= u64::MAX,
        pos + 8 + 4 * s.len() <= b.len(),
        b.subrange(pos, pos + 8 + 4 * s.len()) == spec_enc_str(s),
    ensures
        spec_dec_str(b, pos) == Some((s, pos + 8 + 4 * s.len())),
{
    vstd::bytes::lemma_auto_spec_u32_to_from_le_bytes();
    vstd::bytes::lemma_auto_spec_u64_to_from_le_bytes();
    lemma_enc_chars_len(s);
    lemma_subrange_split(b, pos, spec_enc_u64(s.len() as u64), spec_enc_chars(s));
    lemma_dec_enc_u64(b, pos, s.len() as u64);
    lemma_dec_enc_chars(b, pos + 8, s);
}

/// The number of bytes one identity entry encodes to.
pub open spec fn spec_id_entry_len(e: (Seq<char>, u64, u64)) -> int {
    8 + 4 * e.0.len() as int + 16
}

proof fn lemma_enc_id_entry_len(e: (Seq<char>, u64, u64))
    ensures
        spec_enc_id_entry(e).len() == spec_id_entry_len(e),
{
    vstd::bytes::lemma_auto_spec_u32_to_from_le_bytes();
    vstd::bytes::lemma_auto_spec_u64_to_from_le_bytes();
    lemma_enc_chars_len(e.0);
}

proof fn lemma_dec_enc_id_entry(b: Seq<u8>, pos: int, e: (Seq<char>, u64, u64))
    requires
        0 <= pos,
        e.0.len() <= u64::MAX,
        pos + spec_id_entry_len(e) <= b.len(),
        b.subrange(pos, pos + spec_id_entry_len(e)) == spec_enc_id_entry(e),
    ensures
        spec_dec_id_entry(b, pos) == Some((e, pos + spec_id_entry_len(e))),
{
    vstd::bytes::lemma_auto_spec_u32_to_from_le_bytes();
    vstd::bytes::lemma_auto_spec_u64_to_from_le_bytes();
    lemma_enc_chars_len(e.0);
    assert(spec_enc_id_entry(e) =~= spec_enc_str(e.0) + (spec_enc_u64(e.1) + spec_enc_u64(e.2)));
    lemma_subrange_split(b, pos, spec_enc_str(e.0), spec_enc_u64(e.1) + spec_enc_u64(e.2));
    let p1 = pos + 8 + 4 * e.0.len();
    lemma_dec_enc_str(b, pos, e.0);
    lemma_subrange_split(b, p1, spec_enc_u64(e.1), spec_enc_u64(e.2));
    lemma_dec_enc_u64(b, p1, e.1);
    lemma_dec_enc_u64(b, p1 + 8, e.2);
}

proof fn lemma_enc_id_entries_head(s: Seq<(Seq<char>, u64, u64)>)
    requires
        s.len() > 0,
    ensures
        spec_enc_id_entries(s) == spec_enc_id_entry(s[0]) + spec_enc_id_entries(s.drop_first()),
    decreases s.len(),
{
    vstd::bytes::lemma_auto_spec_u32_to_from_le_bytes();
    vstd::bytes::lemma_auto_spec_u64_to_from_le_bytes();
    if s.len() == 1 {
        assert(s.drop_last() =~= Seq::<(Seq<char>, u64, u64)>::empty());
        assert(s.drop_first() =~= Seq::<(Seq<char>, u64, u64)>::empty());
        assert(spec_enc_id_entries(s) =~= spec_enc_id_entry(s[0]) + spec_enc_id_entries(
            s.drop_first(),
        ));
    } else {
        lemma_enc_id_entries_head(s.drop_last());
        assert(s.drop_last()[0] == s[0]);
        assert(s.drop_first().drop_last() =~= s.drop_last().drop_first());
        assert(s.drop_first().last() == s.last());
        assert(spec_enc_id_entries(s.drop_first()) == spec_enc_id_entries(
            s.drop_first().drop_last(),
        ) + spec_enc_id_entry(s.drop_first().last()));
        assert(spec_enc_id_entries(s) =~= spec_enc_id_entry(s[0]) + spec_enc_id_entries(
            s.drop_first(),
        ));
    }
}

proof fn lemma_dec_enc_id_entries(b: Seq<u8>, pos: int, s: Seq<(Seq<char>, u64, u64)>)
    requires
        0 <= pos,
        forall|k: int| 0 <= k < s.len() ==> #[trigger] s[k].0.len() <= u64::MAX,
        pos + spec_enc_id_entries(s).len() <= b.len(),
        b.subrange(pos, pos + spec_enc_id_entries(s).len()) == spec_enc_id_entries(s),
    ensures
        spec_dec_id_entries(b, pos, s.len()) == Some((s, pos + spec_enc_id_entries(s).len())),
    decreases s.len(),
{
    vstd::bytes::lemma_auto_spec_u32_to_from_le_bytes();
    vstd::bytes::lemma_auto_spec_u64_to_from_le_bytes();
    if s.len() > 0 {
        lemma_enc_id_entries_head(s);
        lemma_enc_id_entry_len(s[0]);
        lemma_subrange_split(b, pos, spec_enc_id_entry(s[0]), spec_enc_id_entries(s.drop_first()));
        lemma_dec_enc_id_entry(b, pos, s[0]);
        let p1 = pos + spec_id_entry_len(s[0]);
        assert(forall|k: int|
            0 <= k < s.drop_first().len() ==> #[trigger] s.drop_first()[k].0.len() <= u64::MAX);
        lemma_dec_enc_id_entries(b, p1, s.drop_first());
        assert(seq![s[0]] + s.drop_first() =~= s);
    }
}

/// Encoding the identity cache and decoding the bytes yields the cache back.
pub proof fn lemma_identity_cache_round_trip(s: Seq<(Seq<char>, u64, u64)>)
    requires
        s.len() <= u64::MAX,
        forall|k: int| 0 <= k < s.len() ==> #[trigger] s[k].0.len() <= u64::MAX,
    ensures
        spec_dec_id_data(spec_enc_id_data(s)) == Some(s),
{
    vstd::bytes::lemma_auto_spec_u32_to_from_le_bytes();
    vstd::bytes::lemma_auto_spec_u64_to_from_le_bytes();
    let b = spec_enc_id_data(s);
    assert(b.subrange(0, 0 + spec_enc_u64(s.len() as u64).len() + spec_enc_id_entries(
        s,
    ).len() as int) =~= b);
    lemma_subrange_split(b, 0, spec_enc_u64(s.len() as u64), spec_enc_id_entries(s));
    lemma_dec_enc_u64(b, 0, s.len() as u64);
    lemma_dec_enc_id_entries(b, 8, s);
}

/// The number of bytes one dispatch-table entry encodes to.
pub open spec fn spec_vt_entry_len(e: ((Seq<char>, u32), u64)) -> int {
    8 + 4 * e.0.0.len() as int + 4 + 8
}

proof fn lemma_enc_vt_entry_len(e: ((Seq<char>, u32), u64))
    ensures
        spec_enc_vt_entry(e).len() == spec_vt_entry_len(e),
{
    vstd::bytes::lemma_auto_spec_u32_to_from_le_bytes();
    vstd::bytes::lemma_auto_spec_u64_to_from_le_bytes();
    lemma_enc_chars_len(e.0.0);
}

proof fn lemma_dec_enc_vt_entry(b: Seq<u8>, pos: int, e: ((Seq<char>, u32), u64))
    requires
        0 <= pos,
        e.0.0.len() <= u64::MAX,
        pos + spec_vt_entry_len(e) <= b.len(),
        b.subrange(pos, pos + spec_vt_entry_len(e)) == spec_enc_vt_entry(e),
    ensures
        spec_dec_vt_entry(b, pos) == Some((e, pos + spec_vt_entry_len(e))),
{
    vstd::bytes::lemma_auto_spec_u32_to_from_le_bytes();
    vstd::bytes::lemma_auto_spec_u64_to_from_le_bytes();
    lemma_enc_chars_len(e.0.0);
    assert(spec_enc_vt_entry(e) =~= spec_enc_str(e.0.0) + (spec_enc_u32(e.0.1) + spec_enc_u64(
        e.1,
    )));
    lemma_subrange_split(b, pos, spec_enc_str(e.0.0), spec_enc_u32(e.0.1) + spec_enc_u64(e.1));
    let p1 = pos + 8 + 4 * e.0.0.len();
    lemma_dec_enc_str(b, pos, e.0.0);
    lemma_subrange_split(b, p1, spec_enc_u32(e.0.1), spec_enc_u64(e.1));
    lemma_dec_enc_u32(b, p1, e.0.1);
    lemma_dec_enc_u64(b, p1 + 4, e.1);
}

proof fn lemma_enc_vt_entries_head(s: Seq<((Seq<char>, u32), u64)>)
    requires
        s.len() > 0,
    ensures
        spec_enc_vt_entries(s) == spec_enc_vt_entry(s[0]) + spec_enc_vt_entries(s.drop_first()),
    decreases s.len(),
{
    vstd::bytes::lemma_auto_spec_u32_to_from_le_bytes();
    vstd::bytes::lemma_auto_spec_u64_to_from_le_bytes();
    if s.len() == 1 {
        assert(s.drop_last() =~= Seq::<((Seq<char>, u32), u64)>::empty());
        assert(s.drop_first() =~= Seq::<((Seq<char>, u32), u64)>::empty());
        assert(spec_enc_vt_entries(s) =~= spec_enc_vt_entry(s[0]) + spec_enc_vt_entries(
            s.drop_first(),
        ));
    } else {
        lemma_enc_vt_entries_head(s.drop_last());
        assert(s.drop_last()[0] == s[0]);
        assert(s.drop_first().drop_last() =~= s.drop_last().drop_first());
        assert(s.drop_first().last() == s.last());
        assert(spec_enc_vt_entries(s.drop_first()) == spec_enc_vt_entries(
            s.drop_first().drop_last(),
        ) + spec_enc_vt_entry(s.drop_first().last()));
        assert(spec_enc_vt_entries(s) =~= spec_enc_vt_entry(s[0]) + spec_enc_vt_entries(
            s.drop_first(),
        ));
    }
}

proof fn lemma_dec_enc_vt_entries(b: Seq<u8>, pos: int, s: Seq<((Seq<char>, u32), u64)>)
    requires
        0 <= pos,
        forall|k: int| 0 <= k < s.len() ==> #[trigger] s[k].0.0.len() <= u64::MAX,
        pos + spec_enc_vt_entries(s).len() <= b.len(),
        b.subrange(pos, pos + spec_enc_vt_entries(s).len()) == spec_enc_vt_entries(s),
    ensures
        spec_dec_vt_entries(b, pos, s.len()) == Some((s, pos + spec_enc_vt_entries(s).len())),
    decreases s.len(),
{
    vstd::bytes::lemma_auto_spec_u32_to_from_le_bytes();
    vstd::bytes::lemma_auto_spec_u64_to_from_le_bytes();
    if s.len() > 0 {
        lemma_enc_vt_entries_head(s);
        lemma_enc_vt_entry_len(s[0]);
        lemma_subrange_split(b, pos, spec_enc_vt_entry(s[0]), spec_enc_vt_entries(s.drop_first()));
        lemma_dec_enc_vt_entry(b, pos, s[0]);
        let p1 = pos + spec_vt_entry_len(s[0]);
        assert(forall|k: int|
            0 <= k < s.drop_first().len() ==> #[trigger] s.drop_first()[k].0.0.len() <= u64::MAX);
        lemma_dec_enc_vt_entries(b, p1, s.drop_first());
        assert(seq![s[0]] + s.drop_first() =~= s);
    }
}

/// Whether every string and list in a dispatch-table cache is small enough
/// to carry its length in a double quad word.
pub open spec fn spec_vt_cache_wf(s: Seq<(u64, Seq<((Seq<char>, u32), u64)>)>) -> bool {
    s.len() <= u64::MAX && (forall|k: int|
        0 <= k < s.len() ==> #[trigger] s[k].1.len() <= u64::MAX && (forall|j: int|
            0 <= j < s[k].1.len() ==> #[trigger] s[k].1[j].0.0.len() <= u64::MAX))
}

proof fn lemma_dec_enc_vt_slot(b: Seq<u8>, pos: int, e: (u64, Seq<((Seq<char>, u32), u64)>))
    requires
        0 <= pos,
        e.1.len() <= u64::MAX,
        forall|j: int| 0 <= j < e.1.len() ==> #[trigger] e.1[j].0.0.len() <= u64::MAX,
        pos + spec_enc_vt_slot(e).len() <= b.len(),
        b.subrange(pos, pos + spec_enc_vt_slot(e).len()) == spec_enc_vt_slot(e),
    ensures
        spec_dec_vt_slot(b, pos) == Some((e, pos + spec_enc_vt_slot(e).len())),
{
    vstd::bytes::lemma_auto_spec_u32_to_from_le_bytes();
    vstd::bytes::lemma_auto_spec_u64_to_from_le_bytes();
    assert(spec_enc_vt_slot(e) =~= spec_enc_u64(e.0) + (spec_enc_u64(e.1.len() as u64)
        + spec_enc_vt_entries(e.1)));
    lemma_subrange_split(
        b,
        pos,
        spec_enc_u64(e.0),
        spec_enc_u64(e.1.len() as u64) + spec_enc_vt_entries(e.1),
    );
    lemma_dec_enc_u64(b, pos, e.0);
    lemma_subrange_split(b, pos + 8, spec_enc_u64(e.1.len() as u64), spec_enc_vt_entries(e.1));
    lemma_dec_enc_u64(b, pos + 8, e.1.len() as u64);
    lemma_dec_enc_vt_entries(b, pos + 16, e.1);
}

proof fn lemma_enc_vt_slots_head(s: Seq<(u64, Seq<((Seq<char>, u32), u64)>)>)
    requires
        s.len() > 0,
    ensures
        spec_enc_vt_slots(s) == spec_enc_vt_slot(s[0]) + spec_enc_vt_slots(s.drop_first()),
    decreases s.len(),
{
    vstd::bytes::lemma_auto_spec_u32_to_from_le_bytes();
    vstd::bytes::lemma_auto_spec_u64_to_from_le_bytes();
    if s.len() == 1 {
        assert(s.drop_last() =~= Seq::<(u64, Seq<((Seq<char>, u32), u64)>)>::empty());
        assert(s.drop_first() =~= Seq::<(u64, Seq<((Seq<char>, u32), u64)>)>::empty());
        assert(spec_enc_vt_slots(s) =~= spec_enc_vt_slot(s[0]) + spec_enc_vt_slots(
            s.drop_first(),
        ));
    } else {
        lemma_enc_vt_slots_head(s.drop_last());
        assert(s.drop_last()[0] == s[0]);
        assert(s.drop_first().drop_last() =~= s.drop_last().drop_first());
        assert(s.drop_first().last() == s.last());
        assert(spec_enc_vt_slots(s.drop_first()) == spec_enc_vt_slots(s.drop_first().drop_last())
            + spec_enc_vt_slot(s.drop_first().last()));
        assert(spec_enc_vt_slots(s) =~= spec_enc_vt_slot(s[0]) + spec_enc_vt_slots(
            s.drop_first(),
        ));
    }
}

proof fn lemma_dec_enc_vt_slots(b: Seq<u8>, pos: int, s: Seq<(u64, Seq<((Seq<char>, u32), u64)>)>)
    requires
        0 <= pos,
        spec_vt_cache_wf(s),
        pos + spec_enc_vt_slots(s).len() <= b.len(),
        b.subrange(pos, pos + spec_enc_vt_slots(s).len()) == spec_enc_vt_slots(s),
    ensures
        spec_dec_vt_slots(b, pos, s.len()) == Some((s, pos + spec_enc_vt_slots(s).len())),
    decreases s.len(),
{
    vstd::bytes::lemma_auto_spec_u32_to_from_le_bytes();
    vstd::bytes::lemma_auto_spec_u64_to_from_le_bytes();
    if s.len() > 0 {
        lemma_enc_vt_slots_head(s);
        lemma_subrange_split(b, pos, spec_enc_vt_slot(s[0]), spec_enc_vt_slots(s.drop_first()));
        lemma_dec_enc_vt_slot(b, pos, s[0]);
        let p1 = pos + spec_enc_vt_slot(s[0]).len();
        assert(spec_vt_cache_wf(s.drop_first())) by {
            assert(forall|k: int|
                0 <= k < s.drop_first().len() ==> s.drop_first()[k] == s[k + 1]);
        }
        lemma_dec_enc_vt_slots(b, p1, s.drop_first());
        assert(seq![s[0]] + s.drop_first() =~= s);
    }
}

/// Encoding the dispatch-table cache and decoding the bytes yields the cache
/// back.
pub proof fn lemma_vtable_cache_round_trip(s: Seq<(u64, Seq<((Seq<char>, u32), u64)>)>)
    requires
        spec_vt_cache_wf(s),
    ensures
        spec_dec_vt_cache(spec_enc_vt_cache(s)) == Some(s),
{
    vstd::bytes::lemma_auto_spec_u32_to_from_le_bytes();
    vstd::bytes::lemma_auto_spec_u64_to_from_le_bytes();
    let b = spec_enc_vt_cache(s);
    assert(b.subrange(0, 0 + spec_enc_u64(s.len() as u64).len() + spec_enc_vt_slots(
        s,
    ).len() as int) =~= b);
    lemma_subrange_split(b, 0, spec_enc_u64(s.len() as u64), spec_enc_vt_slots(s));
    lemma_dec_enc_u64(b, 0, s.len() as u64);
    lemma_dec_enc_vt_slots(b, 8, s);
}


// ---- The caches as plain values ----
/// The identity cache as path, write time and digest triples.
pub open spec fn id_model(s: Seq<ExecutableEntry>) -> Seq<(Seq<char>, u64, u64)> {
    s.map(|i: int, e: ExecutableEntry| (e.full_path@, e.write_time.0, e.hash))
}

/// The dispatch-table cache as digest-keyed slots of plain entries.
pub open spec fn vt_model(s: Seq<(u64, VtableEntries)>) -> Seq<
    (u64, Seq<((Seq<char>, u32), u64)>),
> {
    s.map(|i: int, e: (u64, VtableEntries)| (e.0, entries_model(e.1.entries@)))
}

// ---- Executable encoders ----
fn enc_push_u32(out: &mut Vec<u8>, x: u32)
    ensures
        final(out)@ == old(out)@ + spec_enc_u32(x),
{
    let mut v = u32_to_le_bytes(x);
    out.append(&mut v);
}

fn enc_push_u64(out: &mut Vec<u8>, x: u64)
    ensures
        final(out)@ == old(out)@ + spec_enc_u64(x),
{
    let mut v = u64_to_le_bytes(x);
    out.append(&mut v);
}

fn enc_push_str(out: &mut Vec<u8>, s: &String)
    ensures
        final(out)@ == old(out)@ + spec_enc_str(s@),
{
    let n = s.as_str().unicode_len();
    enc_push_u64(out, n as u64);
    let mut i: usize = 0;
    while i < n
        invariant
            i <= n,
            n == s@.len(),
            out@ == old(out)@ + spec_enc_u64(s@.len() as u64) + spec_enc_chars(
                s@.take(i as int),
            ),
        decreases n - i,
    {
        let c = s.as_str().get_char(i);
        enc_push_u32(out, c as u32);
        proof {
            assert(s@.take(i + 1).drop_last() =~= s@.take(i as int));
            assert(s@.take(i + 1).last() == s@[i as int]);
        }
        i = i + 1;
    }
    proof {
        assert(s@.take(n as int) =~= s@);
    }
}

impl ExecutableData {
    /// Serializes the identity cache for its on-disk file.
    pub fn to_bytes(&self) -> (r: Vec<u8>)
        ensures
            r@ == spec_enc_id_data(id_model(self.entries@)),
    {
        let ghost m = id_model(self.entries@);
        let mut out: Vec<u8> = Vec::new();
        enc_push_u64(&mut out, self.entries.len() as u64);
        let mut i: usize = 0;
        while i < self.entries.len()
            invariant
                i <= self.entries@.len(),
                m == id_model(self.entries@),
                out@ == spec_enc_u64(m.len() as u64) + spec_enc_id_entries(m.take(i as int)),
        decreases self.entries@.len() - i,
        {
            let e = &self.entries[i];
            enc_push_str(&mut out, &e.full_path);
            enc_push_u64(&mut out, e.write_time.0);
            enc_push_u64(&mut out, e.hash);
            proof {
                assert(m.take(i + 1).drop_last() =~= m.take(i as int));
                assert(m.take(i + 1).last() == m[i as int]);
                assert(out@ =~= spec_enc_u64(m.len() as u64) + spec_enc_id_entries(
                    m.take(i + 1),
                ));
            }
            i = i + 1;
        }
        proof {
            assert(m.take(self.entries@.len() as int) =~= m);
        }
        out
    }

    /// Reads an identity cache back from a file's bytes; `None` means the
    /// file is corrupt and the cache is to be regenerated.
    pub fn from_bytes(b: &Vec<u8>) -> (r: Option<ExecutableData>)
        ensures
            match r {
                Some(d) => spec_dec_id_data(b@) == Some(id_model(d.entries@)),
                None => spec_dec_id_data(b@) is None,
            },
    {
        match dec_u64(b, 0) {
            None => None,
            Some((n, p1)) => match dec_id_entries(b, p1, n) {
                None => None,
                Some((v, p2)) => if p2 == b.len() {
                    Some(ExecutableData { entries: v })
                } else {
                    None
                },
            },
        }
    }
}

impl VtableRTTICache {
    /// Serializes the dispatch-table cache for its on-disk file.
    pub fn to_bytes(&self) -> (r: Vec<u8>)
        ensures
            r@ == spec_enc_vt_cache(vt_model(self.entries@)),
    {
        let ghost m = vt_model(self.entries@);
        let mut out: Vec<u8> = Vec::new();
        enc_push_u64(&mut out, self.entries.len() as u64);
        let mut i: usize = 0;
        while i < self.entries.len()
            invariant
                i <= self.entries@.len(),
                m == vt_model(self.entries@),
                out@ == spec_enc_u64(m.len() as u64) + spec_enc_vt_slots(m.take(i as int)),
        decreases self.entries@.len() - i,
        {
            enc_push_u64(&mut out, self.entries[i].0);
            let ghost inner = entries_model(self.entries@[i as int].1.entries@);
            enc_push_u64(&mut out, self.entries[i].1.entries.len() as u64);
            let mut j: usize = 0;
            while j < self.entries[i].1.entries.len()
                invariant
                    i < self.entries@.len(),
                    j <= self.entries@[i as int].1.entries@.len(),
                    m == vt_model(self.entries@),
                    inner == entries_model(self.entries@[i as int].1.entries@),
                    out@ == spec_enc_u64(m.len() as u64) + spec_enc_vt_slots(m.take(i as int))
                        + spec_enc_u64(m[i as int].0) + spec_enc_u64(inner.len() as u64)
                        + spec_enc_vt_entries(inner.take(j as int)),
                decreases self.entries@[i as int].1.entries@.len() - j,
            {
                let e = &self.entries[i].1.entries[j];
                enc_push_str(&mut out, &e.0.name);
                enc_push_u32(&mut out, e.0.offset);
                enc_push_u64(&mut out, e.1);
                proof {
                    assert(inner.take(j + 1).drop_last() =~= inner.take(j as int));
                    assert(inner.take(j + 1).last() == inner[j as int]);
                    assert(out@ =~= spec_enc_u64(m.len() as u64) + spec_enc_vt_slots(
                        m.take(i as int),
                    ) + spec_enc_u64(m[i as int].0) + spec_enc_u64(inner.len() as u64)
                        + spec_enc_vt_entries(inner.take(j + 1)));
                }
                j = j + 1;
            }
            proof {
                assert(inner.take(self.entries@[i as int].1.entries@.len() as int) =~= inner);
                assert(m[i as int].1 == inner);
                assert(m.take(i + 1).drop_last() =~= m.take(i as int));
                assert(m.take(i + 1).last() == m[i as int]);
                assert(out@ =~= spec_enc_u64(m.len() as u64) + spec_enc_vt_slots(m.take(i + 1)));
            }
            i = i + 1;
        }
        proof {
            assert(m.take(self.entries@.len() as int) =~= m);
        }
        out
    }

    /// Reads a dispatch-table cache back from a file's bytes; `None` means
    /// the file is corrupt and a full rescan is to follow.
    pub fn from_bytes(b: &Vec<u8>) -> (r: Option<VtableRTTICache>)
        ensures
            match r {
                Some(d) => spec_dec_vt_cache(b@) == Some(vt_model(d.entries@)),
                None => spec_dec_vt_cache(b@) is None,
            },
    {
        match dec_u64(b, 0) {
            None => None,
            Some((n, p1)) => match dec_vt_slots(b, p1, n) {
                None => None,
                Some((v, p2)) => if p2 == b.len() {
                    Some(VtableRTTICache { entries: v })
                } else {
                    None
                },
            },
        }
    }
}

// ---- Executable decoders ----
fn dec_u32(b: &Vec<u8>, pos: usize) -> (r: Option<(u32, usize)>)
    ensures
        match r {
            Some((v, p)) => spec_dec_u32(b@, pos as int) == Some((v, p as int)),
            None => spec_dec_u32(b@, pos as int) is None,
        },
{
    if pos <= b.len() && b.len() - pos >= 4 {
        let w = slice_subrange(b.as_slice(), pos, pos + 4);
        Some((u32_from_le_bytes(w), pos + 4))
    } else {
        None
    }
}

fn dec_u64(b: &Vec<u8>, pos: usize) -> (r: Option<(u64, usize)>)
    ensures
        match r {
            Some((v, p)) => spec_dec_u64(b@, pos as int) == Some((v, p as int)),
            None => spec_dec_u64(b@, pos as int) is None,
        },
{
    if pos <= b.len() && b.len() - pos >= 8 {
        let w = slice_subrange(b.as_slice(), pos, pos + 8);
        Some((u64_from_le_bytes(w), pos + 8))
    } else {
        None
    }
}

fn dec_chars(b: &Vec<u8>, pos: usize, n: u64) -> (r: Option<(String, usize)>)
    ensures
        match r {
            Some((s, p)) => spec_dec_chars(b@, pos as int, n as nat) == Some((s@, p as int)),
            None => spec_dec_chars(b@, pos as int, n as nat) is None,
        },
    decreases n,
{
    if n == 0 {
        Some((String::new(), pos))
    } else {
        match dec_u32(b, pos) {
            None => None,
            Some((v, p1)) => match char_from_u32(v) {
                None => None,
                Some(c) => match dec_chars(b, p1, n - 1) {
                    None => None,
                    Some((rest, p2)) => {
                        let mut s = String::new();
                        push_char(&mut s, c);
                        s.append(rest.as_str());
                        proof {
                            char_u32_cast(c, v);
                            assert(s@ =~= seq![v as char] + rest@);
                        }
                        Some((s, p2))
                    },
                },
            },
        }
    }
}

fn dec_str(b: &Vec<u8>, pos: usize) -> (r: Option<(String, usize)>)
    ensures
        match r {
            Some((s, p)) => spec_dec_str(b@, pos as int) == Some((s@, p as int)),
            None => spec_dec_str(b@, pos as int) is None,
        },
{
    match dec_u64(b, pos) {
        None => None,
        Some((n, p1)) => dec_chars(b, p1, n),
    }
}

fn dec_id_entry(b: &Vec<u8>, pos: usize) -> (r: Option<(ExecutableEntry, usize)>)
    ensures
        match r {
            Some((e, p)) => spec_dec_id_entry(b@, pos as int) == Some(
                ((e.full_path@, e.write_time.0, e.hash), p as int),
            ),
            None => spec_dec_id_entry(b@, pos as int) is None,
        },
{
    match dec_str(b, pos) {
        None => None,
        Some((path, p1)) => match dec_u64(b, p1) {
            None => None,
            Some((t, p2)) => match dec_u64(b, p2) {
                None => None,
                Some((h, p3)) => Some(
                    (ExecutableEntry { full_path: path, write_time: WriteTime(t), hash: h }, p3),
                ),
            },
        },
    }
}

fn dec_id_entries(b: &Vec<u8>, pos: usize, n: u64) -> (r: Option<(Vec<ExecutableEntry>, usize)>)
    ensures
        match r {
            Some((v, p)) => spec_dec_id_entries(b@, pos as int, n as nat) == Some(
                (id_model(v@), p as int),
            ),
            None => spec_dec_id_entries(b@, pos as int, n as nat) is None,
        },
    decreases n,
{
    if n == 0 {
        let v: Vec<ExecutableEntry> = Vec::new();
        proof {
            assert(id_model(v@) =~= Seq::<(Seq<char>, u64, u64)>::empty());
        }
        Some((v, pos))
    } else {
        match dec_id_entry(b, pos) {
            None => None,
            Some((e, p1)) => match dec_id_entries(b, p1, n - 1) {
                None => None,
                Some((mut v, p2)) => {
                    let ghost rest = id_model(v@);
                    let ghost em = (e.full_path@, e.write_time.0, e.hash);
                    v.insert(0, e);
                    proof {
                        assert(id_model(v@) =~= seq![em] + rest);
                    }
                    Some((v, p2))
                },
            },
        }
    }
}

fn dec_vt_entry(b: &Vec<u8>, pos: usize) -> (r: Option<((VtableKey, u64), usize)>)
    ensures
        match r {
            Some((e, p)) => spec_dec_vt_entry(b@, pos as int) == Some(
                ((e.0.key(), e.1), p as int),
            ),
            None => spec_dec_vt_entry(b@, pos as int) is None,
        },
{
    match dec_str(b, pos) {
        None => None,
        Some((name, p1)) => match dec_u32(b, p1) {
            None => None,
            Some((o, p2)) => match dec_u64(b, p2) {
                None => None,
                Some((a, p3)) => Some(((VtableKey::new(name, o), a), p3)),
            },
        },
    }
}

fn dec_vt_entries(b: &Vec<u8>, pos: usize, n: u64) -> (r: Option<(Vec<(VtableKey, u64)>, usize)>)
    ensures
        match r {
            Some((v, p)) => spec_dec_vt_entries(b@, pos as int, n as nat) == Some(
                (entries_model(v@), p as int),
            ),
            None => spec_dec_vt_entries(b@, pos as int, n as nat) is None,
        },
    decreases n,
{
    if n == 0 {
        let v: Vec<(VtableKey, u64)> = Vec::new();
        proof {
            assert(entries_model(v@) =~= Seq::<((Seq<char>, u32), u64)>::empty());
        }
        Some((v, pos))
    } else {
        match dec_vt_entry(b, pos) {
            None => None,
            Some((e, p1)) => match dec_vt_entries(b, p1, n - 1) {
                None => None,
                Some((mut v, p2)) => {
                    let ghost rest = entries_model(v@);
                    let ghost em = (e.0.key(), e.1);
                    v.insert(0, e);
                    proof {
                        assert(entries_model(v@) =~= seq![em] + rest);
                    }
                    Some((v, p2))
                },
            },
        }
    }
}

fn dec_vt_slot(b: &Vec<u8>, pos: usize) -> (r: Option<((u64, VtableEntries), usize)>)
    ensures
        match r {
            Some((e, p)) => spec_dec_vt_slot(b@, pos as int) == Some(
                ((e.0, entries_model(e.1.entries@)), p as int),
            ),
            None => spec_dec_vt_slot(b@, pos as int) is None,
        },
{
    match dec_u64(b, pos) {
        None => None,
        Some((h, p1)) => match dec_u64(b, p1) {
            None => None,
            Some((n, p2)) => match dec_vt_entries(b, p2, n) {
                None => None,
                Some((v, p3)) => Some(((h, VtableEntries { entries: v }), p3)),
            },
        },
    }
}

fn dec_vt_slots(b: &Vec<u8>, pos: usize, n: u64) -> (r: Option<
    (Vec<(u64, VtableEntries)>, usize),
>)
    ensures
        match r {
            Some((v, p)) => spec_dec_vt_slots(b@, pos as int, n as nat) == Some(
                (vt_model(v@), p as int),
            ),
            None => spec_dec_vt_slots(b@, pos as int, n as nat) is None,
        },
    decreases n,
{
    if n == 0 {
        let v: Vec<(u64, VtableEntries)> = Vec::new();
        proof {
            assert(vt_model(v@) =~= Seq::<(u64, Seq<((Seq<char>, u32), u64)>)>::empty());
        }
        Some((v, pos))
    } else {
        match dec_vt_slot(b, pos) {
            None => None,
            Some((e, p1)) => match dec_vt_slots(b, p1, n - 1) {
                None => None,
                Some((mut v, p2)) => {
                    let ghost rest = vt_model(v@);
                    let ghost em = (e.0, entries_model(e.1.entries@));
                    v.insert(0, e);
                    proof {
                        assert(vt_model(v@) =~= seq![em] + rest);
                    }
                    Some((v, p2))
                },
            },
        }
    }
}

} // verus!
