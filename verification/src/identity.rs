//! The executable identity service: a content hash plus staleness cache for
//! the target executable. An entry records the path, the last write time and
//! the 64-bit content digest of one executable; the digest is recomputed only
//! when the write time changes, so repeated launches skip re-reading the file.
use vstd::prelude::*;

verus! {

/// The 64-bit content digest that the identity service assigns to a byte
/// stream. The digest is a function of the bytes alone.
pub uninterp spec fn content_digest_of(bytes: Seq<u8>) -> u64;

/// Relies on twox_hash::XxHash3_64::oneshot: a 64-bit digest computed from
/// the input bytes alone, with the crate's fixed default seed and secret.
#[verifier::external_body]
pub(crate) fn content_digest(bytes: &Vec<u8>) -> (r: u64)
    ensures
        r == content_digest_of(bytes@),
{
    twox_hash::XxHash3_64::oneshot(bytes.as_slice())
}

/// A file modification time, held as the plain value the platform reports.
#[derive(Debug, Clone, Copy, PartialEq, Eq, Structural)]
pub struct WriteTime(pub u64);

/// One observed executable: its path, its last write time, and the content
/// digest computed when that write time was current.
#[derive(Debug)]
pub struct ExecutableEntry {
    pub full_path: String,
    pub write_time: WriteTime,
    pub hash: u64,
}

/// The identity cache: the list of all executables observed so far. Entries
/// are appended on first observation and updated in place when a file's
/// write time changes; they are never removed.
#[derive(Debug)]
pub struct ExecutableData {
    pub entries: Vec<ExecutableEntry>,
}

/// The index of the first entry whose path is `path`, if any.
pub open spec fn spec_find_entry(s: Seq<ExecutableEntry>, path: Seq<char>) -> Option<int>
    decreases s.len(),
{
    if s.len() == 0 {
        None
    } else if s[0].full_path@ == path {
        Some(0)
    } else {
        match spec_find_entry(s.drop_first(), path) {
            Some(i) => Some(i + 1),
            None => None,
        }
    }
}

/// What the cache answers for `path` at write time `t` without reading any
/// file content: the stored digest, provided the entry's write time still
/// matches.
pub open spec fn spec_cached_hash(s: Seq<ExecutableEntry>, path: Seq<char>, t: u64) -> Option<u64> {
    match spec_find_entry(s, path) {
        Some(i) => if s[i].write_time == WriteTime(t) {
            Some(s[i].hash)
        } else {
            None
        },
        None => None,
    }
}

/// The cache after resolving `path` at write time `t` where `h` is the
/// digest of the file's current content, together with the answered digest
/// and whether the cache changed.
pub open spec fn spec_resolve(s: Seq<ExecutableEntry>, path: String, t: u64, h: u64) -> (
    Seq<ExecutableEntry>,
    u64,
    bool,
) {
    match spec_find_entry(s, path@) {
        Some(i) => if s[i].write_time == WriteTime(t) {
            (s, s[i].hash, false)
        } else {
            (
                s.update(
                    i,
                    ExecutableEntry { full_path: s[i].full_path, write_time: WriteTime(t), hash: h },
                ),
                h,
                true,
            )
        },
        None => (
            s.push(ExecutableEntry { full_path: path, write_time: WriteTime(t), hash: h }),
            h,
            true,
        ),
    }
}

proof fn lemma_find_entry_extend(s: Seq<ExecutableEntry>, path: Seq<char>, i: int)
    requires
        0 <= i <= s.len(),
        forall|j: int| 0 <= j < i ==> s[j].full_path@ != path,
    ensures
        i == s.len() ==> spec_find_entry(s, path) == None::<int>,
        i < s.len() && s[i].full_path@ == path ==> spec_find_entry(s, path) == Some(i),
    decreases s.len(),
{
    if s.len() > 0 {
        if s[0].full_path@ == path {
        } else {
            lemma_find_entry_extend(s.drop_first(), path, if i == 0 { 0 } else { i - 1 });
        }
    }
}

impl ExecutableData {
    pub fn new() -> (r: ExecutableData)
        ensures
            r.entries@ == Seq::<ExecutableEntry>::empty(),
    {
        ExecutableData { entries: Vec::new() }
    }

    /// The index of the first entry for `path`, if the cache holds one.
    pub fn find_entry(&self, path: &String) -> (r: Option<usize>)
        ensures
            match r {
                Some(i) => i < self.entries@.len() && spec_find_entry(self.entries@, path@) == Some(
                    i as int,
                ),
                None => spec_find_entry(self.entries@, path@) == None::<int>,
            },
    {
        let mut i: usize = 0;
        while i < self.entries.len()
            invariant
                i <= self.entries@.len(),
                forall|j: int| 0 <= j < i ==> self.entries@[j].full_path@ != path@,
            decreases self.entries@.len() - i,
        {
            if self.entries[i].full_path == *path {
                proof {
                    lemma_find_entry_extend(self.entries@, path@, i as int);
                }
                return Some(i);
            }
            i = i + 1;
        }
        proof {
            lemma_find_entry_extend(self.entries@, path@, i as int);
        }
        None
    }

    /// Records a newly observed executable: appends an entry holding the
    /// digest of `content` and returns that digest.
    pub fn add_entry(&mut self, path: String, write_time: u64, content: &Vec<u8>) -> (r: u64)
        ensures
            r == content_digest_of(content@),
            final(self).entries@ == old(self).entries@.push(
                ExecutableEntry {
                    full_path: path,
                    write_time: WriteTime(write_time),
                    hash: content_digest_of(content@),
                },
            ),
    {
        let hash = content_digest(content);
        self.entries.push(ExecutableEntry { full_path: path, write_time: WriteTime(write_time), hash });
        hash
    }

    /// Answers from the cache alone: the stored digest for `path`, provided
    /// the stored write time still equals `write_time`. No file content is
    /// needed for this call.
    pub fn cached_hash(&self, path: &String, write_time: u64) -> (r: Option<u64>)
        ensures
            r == spec_cached_hash(self.entries@, path@, write_time),
    {
        match self.find_entry(path) {
            Some(i) => {
                if self.entries[i].write_time.0 == write_time {
                    Some(self.entries[i].hash)
                } else {
                    None
                }
            },
            None => None,
        }
    }

    /// Resolves the identity of the executable at `path`: a cache hit (same
    /// path and write time) answers the stored digest without looking at
    /// `content`; otherwise the digest of `content` is stored - updating the
    /// entry in place, or appending one - and answered. The second result
    /// says whether the cache changed and must be persisted.
    pub fn resolve_identity(&mut self, path: &String, write_time: u64, content: &Vec<u8>) -> (r: (
        u64,
        bool,
    ))
        ensures
            ({
                let (s2, h, changed) = spec_resolve(
                    old(self).entries@,
                    *path,
                    write_time,
                    content_digest_of(content@),
                );
                final(self).entries@ == s2 && r.0 == h && r.1 == changed
            }),
    {
        match self.find_entry(path) {
            Some(i) => {
                if self.entries[i].write_time.0 == write_time {
                    (self.entries[i].hash, false)
                } else {
                    let hash = content_digest(content);
                    let e = self.entries.remove(i);
                    self.entries.insert(
                        i,
                        ExecutableEntry { full_path: e.full_path, write_time: WriteTime(write_time), hash },
                    );
                    proof {
                        assert(self.entries@ =~= old(self).entries@.update(
                            i as int,
                            ExecutableEntry {
                                full_path: old(self).entries@[i as int].full_path,
                                write_time: WriteTime(write_time),
                                hash: content_digest_of(content@),
                            },
                        ));
                    }
                    (hash, true)
                }
            },
            None => {
                let hash = self.add_entry(path.clone(), write_time, content);
                (hash, true)
            },
        }
    }
}

/// Resolving twice with no file modification in between is idempotent: after
/// one resolve, the cache answers the same digest by itself - so the second
/// call reads no file content - and a second resolve returns that digest
/// without changing the cache.
pub proof fn lemma_identity_idempotent(s: Seq<ExecutableEntry>, path: String, t: u64, h: u64, h2: u64)
    ensures
        ({
            let (s1, h1, _) = spec_resolve(s, path, t, h);
            spec_cached_hash(s1, path@, t) == Some(h1) && spec_resolve(s1, path, t, h2) == (
                s1,
                h1,
                false,
            )
        }),
{
    let (s1, h1, c1) = spec_resolve(s, path, t, h);
    match spec_find_entry(s, path@) {
        Some(i) => {
            lemma_find_entry_props(s, path@, i);
            if s[i].write_time == WriteTime(t) {
                assert(spec_find_entry(s1, path@) == Some(i));
            } else {
                lemma_find_entry_stable_update(s, path@, i, WriteTime(t), h);
                assert(spec_find_entry(s1, path@) == Some(i));
            }
        },
        None => {
            lemma_find_entry_push(s, path@, WriteTime(t), h, path);
            assert(spec_find_entry(s1, path@) == Some(s.len() as int));
        },
    }
}

/// Resolving after the file changed - a new write time `t2` - stores and
/// answers the digest of the new content, and the cache afterwards answers
/// that digest for the new write time.
pub proof fn lemma_identity_invalidation(
    s: Seq<ExecutableEntry>,
    path: String,
    t1: u64,
    h1: u64,
    t2: u64,
    h2: u64,
)
    requires
        t1 != t2,
    ensures
        ({
            let (s1, r1, _) = spec_resolve(s, path, t1, h1);
            let (s2, r2, changed) = spec_resolve(s1, path, t2, h2);
            r2 == h2 && changed && spec_cached_hash(s2, path@, t2) == Some(h2)
        }),
{
    let (s1, r1, c1) = spec_resolve(s, path, t1, h1);
    match spec_find_entry(s, path@) {
        Some(i) => {
            lemma_find_entry_props(s, path@, i);
            if s[i].write_time == WriteTime(t1) {
                assert(s1 == s);
                let (s2, r2, c2) = spec_resolve(s1, path, t2, h2);
                lemma_find_entry_stable_update(s1, path@, i, WriteTime(t2), h2);
            } else {
                lemma_find_entry_stable_update(s, path@, i, WriteTime(t1), h1);
                lemma_find_entry_stable_update(s1, path@, i, WriteTime(t2), h2);
            }
        },
        None => {
            lemma_find_entry_push(s, path@, WriteTime(t1), h1, path);
            let i = s.len() as int;
            lemma_find_entry_stable_update(s1, path@, i, WriteTime(t2), h2);
        },
    }
}

/// A found index is in bounds and is the first match.
proof fn lemma_find_entry_props(s: Seq<ExecutableEntry>, path: Seq<char>, i: int)
    requires
        spec_find_entry(s, path) == Some(i),
    ensures
        0 <= i < s.len(),
        s[i].full_path@ == path,
        forall|j: int| 0 <= j < i ==> s[j].full_path@ != path,
    decreases s.len(),
{
    if s.len() > 0 && s[0].full_path@ != path {
        lemma_find_entry_props(s.drop_first(), path, i - 1);
        assert forall|j: int| 0 <= j < i implies s[j].full_path@ != path by {
            if j > 0 {
                assert(s.drop_first()[j - 1] == s[j]);
            }
        }
    }
}

/// Updating the found entry with the same path leaves the lookup index as it
/// was.
proof fn lemma_find_entry_stable_update(
    s: Seq<ExecutableEntry>,
    path: Seq<char>,
    i: int,
    t: WriteTime,
    h: u64,
)
    requires
        spec_find_entry(s, path) == Some(i),
    ensures
        spec_find_entry(
            s.update(i, ExecutableEntry { full_path: s[i].full_path, write_time: t, hash: h }),
            path,
        ) == Some(i),
    decreases s.len(),
{
    lemma_find_entry_props(s, path, i);
    let s2 = s.update(i, ExecutableEntry { full_path: s[i].full_path, write_time: t, hash: h });
    lemma_find_entry_extend(s2, path, i);
}

/// Appending an entry for a path the cache does not hold makes lookup find
/// the appended entry.
proof fn lemma_find_entry_push(
    s: Seq<ExecutableEntry>,
    path: Seq<char>,
    t: WriteTime,
    h: u64,
    p: String,
)
    requires
        spec_find_entry(s, path) == None::<int>,
        p@ == path,
    ensures
        spec_find_entry(
            s.push(ExecutableEntry { full_path: p, write_time: t, hash: h }),
            path,
        ) == Some(s.len() as int),
{
    lemma_find_entry_none_props(s, path);
    let s2 = s.push(ExecutableEntry { full_path: p, write_time: t, hash: h });
    lemma_find_entry_extend(s2, path, s.len() as int);
}

/// A failed lookup means no entry has the path.
proof fn lemma_find_entry_none_props(s: Seq<ExecutableEntry>, path: Seq<char>)
    requires
        spec_find_entry(s, path) == None::<int>,
    ensures
        forall|j: int| 0 <= j < s.len() ==> s[j].full_path@ != path,
    decreases s.len(),
{
    if s.len() > 0 {
        lemma_find_entry_none_props(s.drop_first(), path);
        assert forall|j: int| 0 <= j < s.len() implies s[j].full_path@ != path by {
            if j > 0 {
                assert(s.drop_first()[j - 1] == s[j]);
            }
        }
    }
}

} // verus!
