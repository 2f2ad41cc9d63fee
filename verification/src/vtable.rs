//! The virtual-dispatch-table extractor and its cache. The loaded executable
//! image is scanned for object-locator records whose type descriptor carries
//! the fixed mangled-name prefix; each hit maps a decorated type name and a
//! struct offset to the image-relative position of the dispatch table. The
//! result is cached per executable content digest.
use crate::memory::MemoryImage;
use vstd::prelude::*;

verus! {

/// Relies on std's String::push: appends one character.
#[verifier::external_body]
pub(crate) fn push_char(s: &mut String, c: char)
    ensures
        final(s)@ == old(s)@.push(c),
{
    s.push(c);
}

/// Identifies one dispatch table inside an executable: the decorated type
/// name and the offset of the subobject the table belongs to.
#[derive(Debug, Clone)]
pub struct VtableKey {
    pub name: String,
    pub offset: u32,
}

impl VtableKey {
    /// The key as a pair of plain values.
    pub open spec fn key(&self) -> (Seq<char>, u32) {
        (self.name@, self.offset)
    }

    pub fn new(name: String, offset: u32) -> (r: VtableKey)
        ensures
            r.name == name,
            r.offset == offset,
    {
        VtableKey { name, offset }
    }

    /// Whether two keys name the same table.
    pub fn matches(&self, other: &VtableKey) -> (r: bool)
        ensures
            r == (self.key() == other.key()),
    {
        self.name == other.name && self.offset == other.offset
    }
}

/// One scan's findings: an association from table keys to image-relative
/// table addresses, with each key held at most once.
#[derive(Debug, Clone)]
pub struct VtableEntries {
    pub entries: Vec<(VtableKey, u64)>,
}

/// The entries as pairs of plain values.
pub open spec fn entries_model(s: Seq<(VtableKey, u64)>) -> Seq<((Seq<char>, u32), u64)> {
    s.map(|i: int, e: (VtableKey, u64)| (e.0.key(), e.1))
}

/// The index of the first entry with the given key, if any.
pub open spec fn spec_entry_index(s: Seq<((Seq<char>, u32), u64)>, key: (Seq<char>, u32)) -> Option<
    int,
>
    decreases s.len(),
{
    if s.len() == 0 {
        None
    } else if s[0].0 == key {
        Some(0)
    } else {
        match spec_entry_index(s.drop_first(), key) {
            Some(i) => Some(i + 1),
            None => None,
        }
    }
}

/// The address stored for a key, if any.
pub open spec fn spec_entry_lookup(s: Seq<((Seq<char>, u32), u64)>, key: (Seq<char>, u32)) -> Option<
    u64,
> {
    match spec_entry_index(s, key) {
        Some(i) => Some(s[i].1),
        None => None,
    }
}

/// The association after a last-write-wins insert: an existing entry for the
/// key is overwritten, otherwise the pair is appended.
pub open spec fn spec_entry_insert(
    s: Seq<((Seq<char>, u32), u64)>,
    key: (Seq<char>, u32),
    addr: u64,
) -> Seq<((Seq<char>, u32), u64)> {
    match spec_entry_index(s, key) {
        Some(i) => s.update(i, (key, addr)),
        None => s.push((key, addr)),
    }
}

proof fn lemma_entry_index_extend(s: Seq<((Seq<char>, u32), u64)>, key: (Seq<char>, u32), i: int)
    requires
        0 <= i <= s.len(),
        forall|j: int| 0 <= j < i ==> s[j].0 != key,
    ensures
        i == s.len() ==> spec_entry_index(s, key) == None::<int>,
        i < s.len() && s[i].0 == key ==> spec_entry_index(s, key) == Some(i),
    decreases s.len(),
{
    if s.len() > 0 {
        if s[0].0 == key {
        } else {
            lemma_entry_index_extend(s.drop_first(), key, if i == 0 { 0 } else { i - 1 });
        }
    }
}

impl VtableEntries {
    pub fn new() -> (r: VtableEntries)
        ensures
            entries_model(r.entries@) == Seq::<((Seq<char>, u32), u64)>::empty(),
    {
        let r = VtableEntries { entries: Vec::new() };
        proof {
            assert(entries_model(r.entries@) =~= Seq::<((Seq<char>, u32), u64)>::empty());
        }
        r
    }

    pub fn len(&self) -> (r: usize)
        ensures
            r == entries_model(self.entries@).len(),
    {
        self.entries.len()
    }

    /// The index of the first entry with the key, if any.
    fn index_of(&self, key: &VtableKey) -> (r: Option<usize>)
        ensures
            match r {
                Some(i) => i < self.entries@.len() && spec_entry_index(
                    entries_model(self.entries@),
                    key.key(),
                ) == Some(i as int),
                None => spec_entry_index(entries_model(self.entries@), key.key()) == None::<int>,
            },
    {
        let mut i: usize = 0;
        while i < self.entries.len()
            invariant
                i <= self.entries@.len(),
                forall|j: int| 0 <= j < i ==> entries_model(self.entries@)[j].0 != key.key(),
            decreases self.entries@.len() - i,
        {
            if self.entries[i].0.matches(key) {
                proof {
                    lemma_entry_index_extend(entries_model(self.entries@), key.key(), i as int);
                }
                return Some(i);
            }
            i = i + 1;
        }
        proof {
            lemma_entry_index_extend(entries_model(self.entries@), key.key(), i as int);
        }
        None
    }

    /// The stored address for the key, if the scan recorded one.
    pub fn get(&self, key: &VtableKey) -> (r: Option<u64>)
        ensures
            r == spec_entry_lookup(entries_model(self.entries@), key.key()),
    {
        match self.index_of(key) {
            Some(i) => Some(self.entries[i].1),
            None => None,
        }
    }

    /// Records a table address under a key, overwriting an earlier address
    /// for the same key (last write wins). Reports whether the key was
    /// already present, which the scan surfaces as a duplicate warning.
    pub fn insert(&mut self, key: VtableKey, addr: u64) -> (dup: bool)
        ensures
            entries_model(final(self).entries@) == spec_entry_insert(
                entries_model(old(self).entries@),
                key.key(),
                addr,
            ),
            dup == (spec_entry_index(entries_model(old(self).entries@), key.key()) is Some),
    {
        match self.index_of(&key) {
            Some(i) => {
                self.entries.remove(i);
                self.entries.insert(i, (key, addr));
                proof {
                    assert(entries_model(self.entries@) =~= spec_entry_insert(
                        entries_model(old(self).entries@),
                        key.key(),
                        addr,
                    ));
                }
                true
            },
            None => {
                self.entries.push((key, addr));
                proof {
                    assert(entries_model(self.entries@) =~= spec_entry_insert(
                        entries_model(old(self).entries@),
                        key.key(),
                        addr,
                    ));
                }
                false
            },
        }
    }
}

/// The least number of non-zero bytes before a terminating zero byte at or
/// after the mathematical address `addr`, if the image holds one.
pub open spec fn spec_cstr_len(img: &MemoryImage, addr: int) -> Option<nat>
    decreases img.base + img.bytes@.len() - addr,
{
    if !img.spec_in_image_i(addr) {
        None
    } else if img.spec_byte_at_i(addr) == 0 {
        Some(0)
    } else {
        match spec_cstr_len(img, addr + 1) {
            Some(n) => Some((n + 1) as nat),
            None => None,
        }
    }
}

/// The `n` bytes at the mathematical address `addr`, read as characters.
pub open spec fn spec_name_chars(img: &MemoryImage, addr: int, n: nat) -> Seq<char> {
    Seq::new(n, |i: int| img.spec_byte_at_i(addr + i) as char)
}

/// What candidate slot `k` of the scan contributes: `None` where the slot
/// does not look like a well-formed object locator, otherwise the key - the
/// decorated name past the fixed prefix, and the locator's struct offset -
/// and the image-relative position of the pointer following the locator.
pub open spec fn spec_candidate(img: &MemoryImage, fo: int, k: int) -> Option<
    ((Seq<char>, u32), u64),
> {
    let pa = img.base + fo + 8 * k;
    let s = img.spec_qword_at_i(pa);
    if !img.spec_in_image(s) {
        None
    } else if !img.spec_range_in_image_i(s as int, 16) {
        None
    } else {
        let ti = img.base + img.spec_dword_at_i(s + 12);
        if !img.spec_in_image_i(ti) {
            None
        } else if !img.spec_range_in_image_i(ti + 16, 4) {
            None
        } else if !(img.spec_byte_at_i(ti + 16) == 0x2e && img.spec_byte_at_i(ti + 17) == 0x3f
            && img.spec_byte_at_i(ti + 18) == 0x41 && img.spec_byte_at_i(ti + 19) == 0x56) {
            None
        } else {
            match spec_cstr_len(img, ti + 19) {
                Some(n) => Some(
                    (
                        (spec_name_chars(img, ti + 19, n), img.spec_dword_at_i(s + 4)),
                        (fo + 8 * k + 8) as u64,
                    ),
                ),
                None => None,
            }
        }
    }
}

/// The scan's findings after the first `k` candidate slots, built up with
/// last-write-wins inserts.
pub open spec fn spec_scan(img: &MemoryImage, fo: int, k: nat) -> Seq<((Seq<char>, u32), u64)>
    decreases k,
{
    if k == 0 {
        Seq::empty()
    } else {
        let prev = spec_scan(img, fo, (k - 1) as nat);
        match spec_candidate(img, fo, k - 1) {
            Some(e) => spec_entry_insert(prev, e.0, e.1),
            None => prev,
        }
    }
}

/// The byte at `b` is readable and not a terminator.
pub open spec fn live_byte(img: &MemoryImage, b: int) -> bool {
    img.spec_in_image_i(b) && img.spec_byte_at_i(b) != 0
}

proof fn lemma_cstr_found(img: &MemoryImage, a: int, n: int)
    requires
        0 <= n,
        forall|b: int| a <= b < a + n ==> #[trigger] live_byte(img, b),
        img.spec_in_image_i(a + n),
        img.spec_byte_at_i(a + n) == 0,
    ensures
        spec_cstr_len(img, a) == Some(n as nat),
    decreases n,
{
    if n > 0 {
        assert forall|b: int| a + 1 <= b < a + 1 + (n - 1) implies #[trigger] live_byte(
            img,
            b,
        ) by {
            assert(live_byte(img, b));
        }
        assert(live_byte(img, a));
        lemma_cstr_found(img, a + 1, n - 1);
    }
}

proof fn lemma_cstr_missing(img: &MemoryImage, a: int, n: int)
    requires
        0 <= n,
        forall|b: int| a <= b < a + n ==> #[trigger] live_byte(img, b),
        !img.spec_in_image_i(a + n),
    ensures
        spec_cstr_len(img, a) == None::<nat>,
    decreases n,
{
    if n > 0 {
        assert forall|b: int| a + 1 <= b < a + 1 + (n - 1) implies #[trigger] live_byte(
            img,
            b,
        ) by {
            assert(live_byte(img, b));
        }
        assert(live_byte(img, a));
        lemma_cstr_missing(img, a + 1, n - 1);
    }
}

/// Reads the zero-terminated name starting at `addr`, if the image holds a
/// terminator for it.
fn read_cstr_name(img: &MemoryImage, addr: u64) -> (r: Option<String>)
    requires
        img.spec_wf(),
    ensures
        match r {
            Some(name) => spec_cstr_len(img, addr as int) is Some && name@ == spec_name_chars(
                img,
                addr as int,
                spec_cstr_len(img, addr as int).unwrap(),
            ),
            None => spec_cstr_len(img, addr as int) == None::<nat>,
        },
{
    let mut n: u64 = 0;
    loop
        invariant
            img.spec_wf(),
            addr + n <= u64::MAX + 1,
            forall|b: int| addr <= b < addr + n ==> #[trigger] live_byte(img, b),
        ensures
            addr + n <= u64::MAX,
            img.spec_in_image_i(addr + n),
            img.spec_byte_at_i(addr + n) == 0,
            forall|b: int| addr <= b < addr + n ==> #[trigger] live_byte(img, b),
        decreases img.base + img.bytes@.len() - addr - n,
    {
        if n > u64::MAX - addr {
            proof {
                lemma_cstr_missing(img, addr as int, n as int);
            }
            return None;
        }
        let a = addr + n;
        if !img.in_image(a) {
            proof {
                lemma_cstr_missing(img, addr as int, n as int);
            }
            return None;
        }
        if img.byte_at(a) == 0 {
            break;
        }
        proof {
            assert(live_byte(img, addr + n));
            assert forall|b: int| addr <= b < addr + (n + 1) implies #[trigger] live_byte(
                img,
                b,
            ) by {
                if b < addr + n {
                    assert(live_byte(img, b));
                } else {
                    assert(live_byte(img, addr + n));
                }
            }
        }
        if n == u64::MAX {
            proof {
                lemma_cstr_missing(img, addr as int, n as int + 1);
            }
            return None;
        }
        n = n + 1;
    }
    proof {
        lemma_cstr_found(img, addr as int, n as int);
    }
    // The terminator sits at addr + n: copy the n bytes before it.
    let mut name = String::new();
    let mut i: u64 = 0;
    while i < n
        invariant
            img.spec_wf(),
            i <= n,
            addr + n <= u64::MAX,
            forall|b: int| addr <= b < addr + n ==> #[trigger] live_byte(img, b),
            name@ == spec_name_chars(img, addr as int, i as nat),
        decreases n - i,
    {
        proof {
            assert(live_byte(img, addr + i));
        }
        let b = img.byte_at(addr + i);
        push_char(&mut name, b as char);
        proof {
            assert(name@ =~= spec_name_chars(img, addr as int, (i + 1) as nat));
        }
        i = i + 1;
    }
    Some(name)
}

/// Scans the loaded image from the first mapped section onward, reading each
/// pointer-sized slot as a candidate object-locator pointer, and records one
/// table per well-formed locator/descriptor pair. A duplicate key overwrites
/// the earlier finding.
pub fn generate_vtable_entries(img: &MemoryImage, first_offset: u64) -> (r: VtableEntries)
    requires
        img.spec_wf(),
        first_offset <= img.bytes@.len(),
    ensures
        entries_model(r.entries@) == spec_scan(
            img,
            first_offset as int,
            ((img.bytes@.len() - first_offset) / 8) as nat,
        ),
{
    let len = img.bytes.len() as u64;
    let count = (len - first_offset) / 8;
    let mut out = VtableEntries::new();
    let mut k: u64 = 0;
    while k < count
        invariant
            img.spec_wf(),
            first_offset <= img.bytes@.len(),
            len == img.bytes@.len(),
            count == (img.bytes@.len() - first_offset) / 8,
            k <= count,
            entries_model(out.entries@) == spec_scan(img, first_offset as int, k as nat),
        decreases count - k,
    {
        proof {
            assert(8 * (k + 1) <= 8 * count);
            assert(8 * count <= len - first_offset) by (nonlinear_arith)
                requires
                    count == (len - first_offset) / 8,
                    len >= first_offset,
            ;
        }
        let pa = img.base + first_offset + 8 * k;
        let s = img.qword_at(pa);
        let ghost cand = spec_candidate(img, first_offset as int, k as int);
        if img.in_image(s) && img.range_in_image(s, 16) {
            let ti_off = img.dword_at(s + 12) as u64;
            if ti_off <= u64::MAX - img.base {
                let ti = img.base + ti_off;
                if img.in_image(ti) && ti <= u64::MAX - 19 && img.range_in_image(ti + 16, 4) {
                    let p0 = img.byte_at(ti + 16);
                    let p1 = img.byte_at(ti + 17);
                    let p2 = img.byte_at(ti + 18);
                    let p3 = img.byte_at(ti + 19);
                    if p0 == 0x2e && p1 == 0x3f && p2 == 0x41 && p3 == 0x56 {
                        if let Some(name) = read_cstr_name(img, ti + 19) {
                            let offset = img.dword_at(s + 4);
                            let addr_rel = first_offset + 8 * k + 8;
                            out.insert(VtableKey::new(name, offset), addr_rel);
                            proof {
                                assert(cand == Some(
                                    (
                                        (name@, offset),
                                        addr_rel,
                                    ),
                                ));
                            }
                        } else {
                            proof {
                                assert(cand is None);
                            }
                        }
                    } else {
                        proof {
                            assert(cand is None);
                        }
                    }
                } else {
                    proof {
                        assert(cand is None);
                    }
                }
            } else {
                proof {
                    assert(!img.spec_in_image_i(img.base + ti_off));
                    assert(cand is None);
                }
            }
        } else {
            proof {
                assert(cand is None);
            }
        }
        k = k + 1;
    }
    out
}

/// The dispatch-table cache: one set of scan findings per executable content
/// digest.
#[derive(Debug, Clone)]
pub struct VtableRTTICache {
    pub entries: Vec<(u64, VtableEntries)>,
}

/// The index of the first cache slot for the digest, if any.
pub open spec fn spec_cache_index(s: Seq<(u64, VtableEntries)>, hash: u64) -> Option<int>
    decreases s.len(),
{
    if s.len() == 0 {
        None
    } else if s[0].0 == hash {
        Some(0)
    } else {
        match spec_cache_index(s.drop_first(), hash) {
            Some(i) => Some(i + 1),
            None => None,
        }
    }
}

proof fn lemma_cache_index_extend(s: Seq<(u64, VtableEntries)>, hash: u64, i: int)
    requires
        0 <= i <= s.len(),
        forall|j: int| 0 <= j < i ==> s[j].0 != hash,
    ensures
        i == s.len() ==> spec_cache_index(s, hash) == None::<int>,
        i < s.len() && s[i].0 == hash ==> spec_cache_index(s, hash) == Some(i),
    decreases s.len(),
{
    if s.len() > 0 {
        if s[0].0 == hash {
        } else {
            lemma_cache_index_extend(s.drop_first(), hash, if i == 0 { 0 } else { i - 1 });
        }
    }
}

impl VtableRTTICache {
    pub fn new_empty() -> (r: VtableRTTICache)
        ensures
            r.entries@ == Seq::<(u64, VtableEntries)>::empty(),
    {
        VtableRTTICache { entries: Vec::new() }
    }

    /// A cache holding one scan result, keyed by the executable's digest.
    pub fn new_from_entry(hash: u64, first: VtableEntries) -> (r: VtableRTTICache)
        ensures
            r.entries@.len() == 1,
            r.entries@[0].0 == hash,
            entries_model(r.entries@[0].1.entries@) == entries_model(first.entries@),
    {
        let mut cache = Self::new_empty();
        cache.add(hash, first);
        cache
    }

    fn index_of(&self, hash: u64) -> (r: Option<usize>)
        ensures
            match r {
                Some(i) => i < self.entries@.len() && spec_cache_index(self.entries@, hash) == Some(
                    i as int,
                ),
                None => spec_cache_index(self.entries@, hash) == None::<int>,
            },
    {
        let mut i: usize = 0;
        while i < self.entries.len()
            invariant
                i <= self.entries@.len(),
                forall|j: int| 0 <= j < i ==> self.entries@[j].0 != hash,
            decreases self.entries@.len() - i,
        {
            if self.entries[i].0 == hash {
                proof {
                    lemma_cache_index_extend(self.entries@, hash, i as int);
                }
                return Some(i);
            }
            i = i + 1;
        }
        proof {
            lemma_cache_index_extend(self.entries@, hash, i as int);
        }
        None
    }

    /// Stores a scan result for the digest, replacing an earlier one.
    pub fn add(&mut self, hash: u64, entry: VtableEntries)
        ensures
            final(self).entries@ == (match spec_cache_index(old(self).entries@, hash) {
                Some(i) => old(self).entries@.update(i, (hash, entry)),
                None => old(self).entries@.push((hash, entry)),
            }),
    {
        match self.index_of(hash) {
            Some(i) => {
                self.entries.remove(i);
                self.entries.insert(i, (hash, entry));
                proof {
                    assert(self.entries@ =~= old(self).entries@.update(i as int, (hash, entry)));
                }
            },
            None => {
                self.entries.push((hash, entry));
            },
        }
    }

    /// The cached scan result for the digest, if one is stored.
    pub fn get(&self, hash: u64) -> (r: Option<&VtableEntries>)
        ensures
            match spec_cache_index(self.entries@, hash) {
                Some(i) => r is Some && *r.unwrap() == self.entries@[i].1,
                None => r is None,
            },
    {
        match self.index_of(hash) {
            Some(i) => Some(&self.entries[i].1),
            None => None,
        }
    }
}


/// Looks up a dispatch table's absolute address by type name and struct
/// offset: the image-relative finding plus the module base.
pub fn get_vtable_with_offset(entries: &VtableEntries, base: u64, name: &str, offset: u32) -> (r:
    Option<u64>)
    ensures
        match spec_entry_lookup(entries_model(entries.entries@), (name@, offset)) {
            Some(rel) => r == Some(vstd::wrapping::u64_specs::wrapping_add(base, rel)),
            None => r is None,
        },
{
    let key = VtableKey::new(name.to_owned(), offset);
    match entries.get(&key) {
        Some(rel) => Some(base.wrapping_add(rel)),
        None => None,
    }
}

/// Looks up the primary dispatch table of a type: struct offset zero.
pub fn get_vtable(entries: &VtableEntries, base: u64, name: &str) -> (r: Option<u64>)
    ensures
        match spec_entry_lookup(entries_model(entries.entries@), (name@, 0u32)) {
            Some(rel) => r == Some(vstd::wrapping::u64_specs::wrapping_add(base, rel)),
            None => r is None,
        },
{
    get_vtable_with_offset(entries, base, name, 0)
}

} // verus!
