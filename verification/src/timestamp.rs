//! The build tool's timestamp table: the last write time seen for each
//! source file, keyed by the file's path digest.
use vstd::prelude::*;

verus! {

/// A file write time as a plain value.
#[derive(Debug, Clone, Copy, PartialEq, Eq, Structural)]
pub struct WriteTime(pub u64);

/// The index of the first entry with a digest.
pub open spec fn spec_stamp_index(s: Seq<(u64, WriteTime)>, key: u64) -> Option<int>
    decreases s.len(),
{
    if s.len() == 0 {
        None
    } else if s[0].0 == key {
        Some(0)
    } else {
        match spec_stamp_index(s.drop_first(), key) {
            Some(i) => Some(i + 1),
            None => None,
        }
    }
}

proof fn lemma_stamp_index_extend(s: Seq<(u64, WriteTime)>, key: u64, i: int)
    requires
        0 <= i <= s.len(),
        forall|j: int| 0 <= j < i ==> s[j].0 != key,
    ensures
        i == s.len() ==> spec_stamp_index(s, key) == None::<int>,
        i < s.len() && s[i].0 == key ==> spec_stamp_index(s, key) == Some(i),
    decreases s.len(),
{
    if s.len() > 0 {
        if s[0].0 == key {
        } else {
            lemma_stamp_index_extend(s.drop_first(), key, if i == 0 { 0 } else { i - 1 });
        }
    }
}

/// The write times recorded at the last build, one entry per source file
/// digest.
#[derive(Debug)]
pub struct Timestamp {
    pub entries: Vec<(u64, WriteTime)>,
}

impl Timestamp {
    pub fn new() -> (r: Timestamp)
        ensures
            r.entries@ == Seq::<(u64, WriteTime)>::empty(),
    {
        Timestamp { entries: Vec::new() }
    }

    fn index_of(&self, key: u64) -> (r: Option<usize>)
        ensures
            match r {
                Some(i) => i < self.entries@.len() && spec_stamp_index(self.entries@, key)
                    == Some(i as int),
                None => spec_stamp_index(self.entries@, key) == None::<int>,
            },
    {
        let mut i: usize = 0;
        while i < self.entries.len()
            invariant
                i <= self.entries@.len(),
                forall|j: int| 0 <= j < i ==> self.entries@[j].0 != key,
            decreases self.entries@.len() - i,
        {
            if self.entries[i].0 == key {
                proof {
                    lemma_stamp_index_extend(self.entries@, key, i as int);
                }
                return Some(i);
            }
            i = i + 1;
        }
        proof {
            lemma_stamp_index_extend(self.entries@, key, i as int);
        }
        None
    }

    /// The write time stored for a digest, if any.
    pub fn get(&self, key: u64) -> (r: Option<WriteTime>)
        ensures
            match spec_stamp_index(self.entries@, key) {
                Some(i) => r == Some(self.entries@[i].1),
                None => r is None,
            },
    {
        match self.index_of(key) {
            Some(i) => Some(self.entries[i].1),
            None => None,
        }
    }

    /// Records a write time for a digest, replacing an earlier record.
    pub fn insert(&mut self, key: u64, t: WriteTime)
        ensures
            final(self).entries@ == (match spec_stamp_index(old(self).entries@, key) {
                Some(i) => old(self).entries@.update(i, (key, t)),
                None => old(self).entries@.push((key, t)),
            }),
    {
        match self.index_of(key) {
            Some(i) => {
                self.entries.remove(i);
                self.entries.insert(i, (key, t));
                proof {
                    assert(self.entries@ =~= old(self).entries@.update(i as int, (key, t)));
                }
            },
            None => {
                self.entries.push((key, t));
            },
        }
    }
}

} // verus!
