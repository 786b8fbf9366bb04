//! The auxiliary vector: entries, the view that a terminated
//! sequence of entries yields, and lookup by key.

use vstd::prelude::*;

use crate::auxtype::{Type, Word, AT_NULL};

verus! {

/// An auxiliary vector key-value pair.
#[derive(Copy, Clone, Debug, PartialEq, Eq, Structural)]
pub struct AuxVal {
    /// The key.
    pub key: Type,
    /// The value.
    pub val: Word,
}

/// The ELF auxiliary vector: the entries before the terminator, in
/// the order in which the kernel laid them out.
#[derive(Debug)]
pub struct AuxVec {
    entries: Vec<AuxVal>,
}

/// `n` is the index of the first terminator (key `AT_NULL`) in `s`.
pub open spec fn first_null_at(s: Seq<AuxVal>, n: int) -> bool {
    &&& 0 <= n < s.len()
    &&& s[n].key.0 == AT_NULL
    &&& forall|i: int| 0 <= i < n ==> s[i].key.0 != AT_NULL
}

/// `s` holds a terminator.
pub open spec fn is_terminated(s: Seq<AuxVal>) -> bool {
    exists|n: int| 0 <= n < s.len() && s[n].key.0 == AT_NULL
}

/// The value of the first entry at or after `i` whose key is `k`.
pub open spec fn find_from(s: Seq<AuxVal>, k: Word, i: int) -> Option<Word>
    decreases s.len() - i,
{
    if i < 0 || i >= s.len() {
        None
    } else if s[i].key.0 == k {
        Some(s[i].val)
    } else {
        find_from(s, k, i + 1)
    }
}

/// The value of the first entry of `s` whose key is `k`.
pub open spec fn find_first(s: Seq<AuxVal>, k: Word) -> Option<Word> {
    find_from(s, k, 0)
}

impl View for AuxVec {
    type V = Seq<AuxVal>;

    closed spec fn view(&self) -> Seq<AuxVal> {
        self.entries@
    }
}

impl AuxVec {
    /// No entry of the view is a terminator.
    pub open spec fn wf(&self) -> bool {
        forall|i: int| 0 <= i < self@.len() ==> self@[i].key.0 != AT_NULL
    }

    /// Builds the view of the terminated sequence of entries that
    /// starts at `records[0]`: every entry before the first one whose
    /// key is `AT_NULL`. Returns `None` where `records` holds no
    /// terminator.
    pub fn from_slice(records: &[AuxVal]) -> (r: Option<AuxVec>)
        ensures
            r is Some <==> is_terminated(records@),
            r matches Some(v) ==> v.wf() && first_null_at(records@, v@.len() as int)
                && v@ == records@.take(v@.len() as int),
    {
        let mut entries: Vec<AuxVal> = Vec::new();
        let mut i: usize = 0;
        while i < records.len()
            invariant
                0 <= i <= records@.len(),
                entries@ == records@.take(i as int),
                forall|j: int| 0 <= j < i ==> records@[j].key.0 != AT_NULL,
            decreases records@.len() - i,
        {
            let rec = records[i];
            if rec.key.0 == AT_NULL {
                let v = AuxVec { entries };
                assert(first_null_at(records@, i as int));
                return Some(v);
            }
            entries.push(rec);
            assert(entries@ == records@.take(i + 1));
            i = i + 1;
        }
        None
    }

    /// The view of `records`, none of which is a terminator.
    pub(crate) fn from_records(records: Vec<AuxVal>) -> (r: AuxVec)
        requires
            forall|i: int| 0 <= i < records@.len() ==> records@[i].key.0 != AT_NULL,
        ensures
            r@ == records@,
            r.wf(),
    {
        AuxVec { entries: records }
    }

    /// The number of entries, the terminator excluded.
    pub fn len(&self) -> (r: usize)
        ensures
            r == self@.len(),
    {
        self.entries.len()
    }

    /// Whether the vector holds no entry but the terminator.
    pub fn is_empty(&self) -> (r: bool)
        ensures
            r == (self@.len() == 0),
    {
        self.entries.len() == 0
    }

    /// The entries, in their original order. Each call yields the
    /// same sequence.
    pub fn iter(&self) -> (r: &[AuxVal])
        ensures
            r@ == self@,
    {
        self.entries.as_slice()
    }

    /// The value of the first entry whose key is `key`, or `None`
    /// where no entry has it. The terminator is never found.
    pub fn lookup(&self, key: Type) -> (r: Option<Word>)
        requires
            self.wf(),
        ensures
            r == find_first(self@, key.0),
            key.0 == AT_NULL ==> r is None,
    {
        proof {
            lemma_absent_not_found(self@, AT_NULL);
        }
        let mut i: usize = 0;
        while i < self.entries.len()
            invariant
                0 <= i <= self@.len(),
                self.wf(),
                find_first(self@, key.0) == find_from(self@, key.0, i as int),
            decreases self@.len() - i,
        {
            let e = self.entries[i];
            if e.key.0 == key.0 {
                assert(self@[i as int] == e);
                assert(find_from(self@, key.0, i as int) == Some(e.val));
                return Some(e.val);
            }
            i = i + 1;
        }
        None
    }
}

/// Lookup agrees with a walk over the entries: where entry `i` is the
/// first whose key is `k`, the value found for `k` is the value of
/// entry `i`.
pub proof fn lemma_lookup_is_first_match(s: Seq<AuxVal>, k: Word, i: int)
    requires
        0 <= i < s.len(),
        s[i].key.0 == k,
        forall|j: int| 0 <= j < i ==> s[j].key.0 != k,
    ensures
        find_first(s, k) == Some(s[i].val),
{
    lemma_find_skips(s, k, 0, i);
}

/// Where no entry from `a` up to `b` has key `k`, the search from `a`
/// goes on at `b`.
proof fn lemma_find_skips(s: Seq<AuxVal>, k: Word, a: int, b: int)
    requires
        0 <= a <= b <= s.len(),
        forall|j: int| a <= j < b ==> s[j].key.0 != k,
    ensures
        find_from(s, k, a) == find_from(s, k, b),
    decreases b - a,
{
    if a < b {
        lemma_find_skips(s, k, a + 1, b);
    }
}

/// Where no entry has key `k`, nothing is found for `k`.
pub proof fn lemma_absent_not_found(s: Seq<AuxVal>, k: Word)
    requires
        forall|j: int| 0 <= j < s.len() ==> s[j].key.0 != k,
    ensures
        find_first(s, k) is None,
{
    lemma_find_skips(s, k, 0, s.len() as int);
}

} // verus!
