//! Locating the auxiliary vector on the initial process stack.
//!
//! The stack is modelled as a slice of words, and a pointer into it as
//! an index (`None` stands for the null pointer). The kernel lays out
//! `argv[..]`, a null word, `envp[..]`, a null word, then the
//! auxiliary vector as key/value pairs up to an `AT_NULL` key.

use vstd::prelude::*;

use crate::auxtype::{Type, Word, AT_NULL};
use crate::auxvec::{AuxVal, AuxVec};

verus! {

/// `t` is the index of the first null word at or after `start`.
pub open spec fn first_zero_at(mem: Seq<Word>, start: int, t: int) -> bool {
    &&& start <= t < mem.len()
    &&& mem[t] == 0
    &&& forall|i: int| start <= i < t ==> mem[i] != 0
}

/// Some word at or after `start` is null.
pub open spec fn has_zero_from(mem: Seq<Word>, start: int) -> bool {
    exists|t: int| start <= t < mem.len() && mem[t] == 0
}

/// The key word of pair `i` of the pairs that start at `start`.
pub open spec fn key_at(mem: Seq<Word>, start: int, i: int) -> Word {
    mem[start + 2 * i]
}

/// Entry `i` of the pairs that start at `start`.
pub open spec fn record_at(mem: Seq<Word>, start: int, i: int) -> AuxVal {
    AuxVal { key: Type(key_at(mem, start, i)), val: mem[start + 2 * i + 1] }
}

/// Entry `n` of the pairs that start at `start` is the first whose key
/// is `AT_NULL`; the value of the terminator need not be in `mem`.
pub open spec fn pairs_end_at(mem: Seq<Word>, start: int, n: int) -> bool {
    &&& 0 <= start
    &&& 0 <= n
    &&& start + 2 * n < mem.len()
    &&& mem[start + 2 * n] == AT_NULL
    &&& forall|i: int| 0 <= i < n ==> key_at(mem, start, i) != AT_NULL
}

/// The pairs that start at `start` reach a terminator inside `mem`.
pub open spec fn pairs_terminated(mem: Seq<Word>, start: int) -> bool {
    exists|n: int| pairs_end_at(mem, start, n)
}

/// The entries of the pairs that start at `start`, up to the terminator.
pub open spec fn records_view(mem: Seq<Word>, start: int, n: nat) -> Seq<AuxVal> {
    Seq::new(n, |i: int| record_at(mem, start, i))
}

/// An optional index as an integer.
pub open spec fn opt_index(o: Option<usize>) -> Option<int> {
    match o {
        Some(i) => Some(i as int),
        None => None,
    }
}

/// The index of the first null word at or after `start`, where there
/// is one.
pub open spec fn first_zero(mem: Seq<Word>, start: int) -> Option<int> {
    if has_zero_from(mem, start) {
        Some(choose|t: int| first_zero_at(mem, start, t))
    } else {
        None
    }
}

/// The index of the first auxiliary vector entry for the environment
/// array at `envp`: the word after the array's null word.
pub open spec fn auxv_index(mem: Seq<Word>, envp: Option<int>) -> Option<int> {
    match envp {
        None => None,
        Some(e) => match first_zero(mem, e) {
            Some(t) => Some(t + 1),
            None => None,
        },
    }
}

/// The index of the first auxiliary vector entry for the argument
/// array at `argv`: the environment array starts after the word that
/// ends `argv`.
pub open spec fn argv_auxv_index(mem: Seq<Word>, argv: Option<int>) -> Option<int> {
    match argv {
        None => None,
        Some(v) => match first_zero(mem, v) {
            Some(t) => auxv_index(mem, Some(t + 1)),
            None => None,
        },
    }
}

/// There is one first null word at or after `start`, and
/// [`first_zero`] names it.
pub proof fn lemma_first_zero(mem: Seq<Word>, start: int, t: int)
    requires
        first_zero_at(mem, start, t),
    ensures
        first_zero(mem, start) == Some(t),
{
    assert(has_zero_from(mem, start));
    let c = choose|c: int| first_zero_at(mem, start, c);
    if c < t {
        assert(mem[c] != 0);
    } else if t < c {
        assert(mem[t] != 0);
    }
}

/// Advances from `start` to the first null word and returns its
/// index, or `None` where `mem` ends first.
pub fn find_term(mem: &[Word], start: usize) -> (r: Option<usize>)
    ensures
        opt_index(r) == first_zero(mem@, start as int),
        r is Some <==> has_zero_from(mem@, start as int),
        r matches Some(t) ==> first_zero_at(mem@, start as int, t as int),
{
    let mut i: usize = start;
    while i < mem.len()
        invariant
            start <= i,
            forall|j: int| start <= j < i ==> mem@[j] != 0,
        decreases mem@.len() - i,
    {
        if mem[i] == 0 {
            proof {
                lemma_first_zero(mem@, start as int, i as int);
            }
            return Some(i);
        }
        i = i + 1;
    }
    None
}

/// The index of the first auxiliary vector entry: the word after the
/// null word that ends the environment array at `envp`. `None` where
/// `envp` is null or the environment array does not end in `mem`.
pub fn find_auxv(mem: &[Word], envp: Option<usize>) -> (r: Option<usize>)
    ensures
        opt_index(r) == auxv_index(mem@, opt_index(envp)),
        r is Some <==> (envp matches Some(e) && has_zero_from(mem@, e as int)),
        r matches Some(a) ==> (envp matches Some(e) && first_zero_at(
            mem@,
            e as int,
            a - 1,
        )),
{
    match envp {
        None => None,
        Some(e) => match find_term(mem, e) {
            None => None,
            Some(t) => {
                let len = mem.len();
                assert(t < len);
                Some(t + 1)
            },
        },
    }
}

/// The index of the first auxiliary vector entry, found from the
/// argument array at `argv`: the environment array starts after the
/// null word that ends `argv`, and the vector after the one that ends
/// the environment array.
pub fn auxv_via_argv(mem: &[Word], argv: Option<usize>) -> (r: Option<usize>)
    ensures
        opt_index(r) == argv_auxv_index(mem@, opt_index(argv)),
{
    match argv {
        None => None,
        Some(v) => match find_term(mem, v) {
            None => None,
            Some(t) => {
                let len = mem.len();
                assert(t < len);
                find_auxv(mem, Some(t + 1))
            },
        },
    }
}

/// Bytes in a word.
pub const WORD_BYTES: Word = 8;

/// The address of word `index` of an array at address `base`, where it
/// fits in a word.
pub open spec fn word_address(base: Word, index: int) -> Option<Word> {
    if 0 <= index && base + WORD_BYTES * index <= u64::MAX {
        Some((base + WORD_BYTES * index) as Word)
    } else {
        None
    }
}

/// The address of the auxiliary vector for the stack `mem`, whose word
/// `0` is the first word of the environment array, at address
/// `envp_addr`: the word after the array's null word.
pub open spec fn stack_auxv_address(mem: Seq<Word>, envp_addr: Word) -> Option<Word> {
    match auxv_index(mem, Some(0)) {
        Some(a) => word_address(envp_addr, a),
        None => None,
    }
}

/// The address of word `index` of an array at address `base`; `None`
/// where it does not fit in a word.
pub fn address_of(base: Word, index: usize) -> (r: Option<Word>)
    ensures
        r == word_address(base, index as int),
{
    let i = index as u64;
    let q: u64 = (u64::MAX - base) / WORD_BYTES;
    if i > q {
        assert(base + WORD_BYTES * i > u64::MAX) by (nonlinear_arith)
            requires
                i > q,
                q == (18446744073709551615int - base) / 8int,
                WORD_BYTES == 8,
        ;
        None
    } else {
        assert(base + WORD_BYTES * i <= u64::MAX) by (nonlinear_arith)
            requires
                i <= q,
                q == (18446744073709551615int - base) / 8int,
                base <= u64::MAX,
                WORD_BYTES == 8,
        ;
        Some(base + WORD_BYTES * i)
    }
}

/// The environment array to search: the C runtime's `environ`, which
/// follows later changes to the environment, where there is one; else
/// the one captured at process start.
pub fn envp(captured: Option<usize>, environ: Option<usize>) -> (r: Option<usize>)
    ensures
        r == (if environ is Some {
            environ
        } else {
            captured
        }),
{
    match environ {
        Some(e) => Some(e),
        None => captured,
    }
}

impl AuxVec {
    /// Builds the view of the auxiliary vector whose first entry is at
    /// `start` (a pointer into the stack, as an index): each entry is a key word followed by a value word, up
    /// to the first key `AT_NULL`. `None` where `mem` ends first.
    pub fn from_ptr(mem: &[Word], start: usize) -> (r: Option<AuxVec>)
        ensures
            r is Some <==> pairs_terminated(mem@, start as int),
            r matches Some(v) ==> v.wf() && pairs_end_at(mem@, start as int, v@.len() as int)
                && v@ == records_view(mem@, start as int, v@.len()),
    {
        let mut records: Vec<AuxVal> = Vec::new();
        let mut j: usize = start;
        let ghost mut n: int = 0;
        while j < mem.len()
            invariant
                j == start + 2 * n,
                0 <= n,
                records@ == records_view(mem@, start as int, n as nat),
                forall|i: int| 0 <= i < n ==> key_at(mem@, start as int, i) != AT_NULL,
            decreases mem@.len() - j,
        {
            let key = mem[j];
            if key == AT_NULL {
                assert(pairs_end_at(mem@, start as int, n));
                return Some(AuxVec::from_records(records));
            }
            if j + 1 >= mem.len() {
                proof {
                    lemma_pairs_not_terminated(mem@, start as int, n + 1);
                }
                return None;
            }
            records.push(AuxVal { key: Type(key), val: mem[j + 1] });
            proof {
                assert(records@ =~= records_view(mem@, start as int, (n + 1) as nat));
                n = n + 1;
            }
            j = j + 2;
        }
        proof {
            lemma_pairs_not_terminated(mem@, start as int, n);
        }
        None
    }
}

/// Where the first `n` keys are not terminators and the pair `n` does
/// not start inside `mem`, no pair ends the vector.
proof fn lemma_pairs_not_terminated(mem: Seq<Word>, start: int, n: int)
    requires
        0 <= start,
        0 <= n,
        start + 2 * n >= mem.len(),
        forall|i: int| 0 <= i < n ==> key_at(mem, start, i) != AT_NULL,
    ensures
        !pairs_terminated(mem, start),
{
    assert forall|m: int| !pairs_end_at(mem, start, m) by {
        if pairs_end_at(mem, start, m) {
            if m < n {
                assert(key_at(mem, start, m) != AT_NULL);
            } else {
                assert(start + 2 * m >= mem.len());
            }
        }
    }
}

/// Where a [`Walker`] is in the words after `envp`.
#[derive(Copy, Clone, Debug, PartialEq, Eq, Structural)]
pub enum Phase {
    /// Reading the environment array, up to its null word.
    Env,
    /// Reading the key of the next entry.
    Key,
    /// Reading the value of the entry whose key was read.
    Val(Word),
    /// The terminator was read.
    Done,
}

/// What a [`Walker`] holds.
pub ghost struct WalkState {
    /// Where the walker is.
    pub phase: Phase,
    /// The offset of the first entry, once the environment array ended.
    pub start: nat,
    /// The offset of the next word to read.
    pub offset: nat,
    /// The entries read so far.
    pub records: Seq<AuxVal>,
}

/// The state after the walker in state `s` reads `word`.
pub open spec fn step_state(s: WalkState, word: Word) -> WalkState {
    match s.phase {
        Phase::Env => if word == 0 {
            WalkState { phase: Phase::Key, start: s.offset + 1, offset: s.offset + 1, ..s }
        } else {
            WalkState { offset: s.offset + 1, ..s }
        },
        Phase::Key => if word == AT_NULL {
            WalkState { phase: Phase::Done, ..s }
        } else {
            WalkState { phase: Phase::Val(word), offset: s.offset + 1, ..s }
        },
        Phase::Val(k) => WalkState {
            phase: Phase::Key,
            offset: s.offset + 1,
            records: s.records.push(AuxVal { key: Type(k), val: word }),
            ..s
        },
        Phase::Done => s,
    }
}

/// Finds and reads the auxiliary vector one word at a time, from the
/// start of the environment array: the caller reads the word at
/// [`Walker::offset`] words past `envp` and hands it to
/// [`Walker::feed`], until [`Walker::is_done`].
pub struct Walker {
    phase: Phase,
    start: usize,
    offset: usize,
    records: Vec<AuxVal>,
}

impl View for Walker {
    type V = WalkState;

    closed spec fn view(&self) -> WalkState {
        WalkState {
            phase: self.phase,
            start: self.start as nat,
            offset: self.offset as nat,
            records: self.records@,
        }
    }
}

impl Walker {
    /// No entry read is a terminator, nor is a key that awaits its value.
    #[verifier::type_invariant]
    spec fn inv(self) -> bool {
        &&& forall|i: int| 0 <= i < self.records@.len() ==> self.records@[i].key.0 != AT_NULL
        &&& self.phase matches Phase::Val(k) ==> k != AT_NULL
    }

    /// A walker at the start of the environment array.
    pub fn new() -> (r: Walker)
        ensures
            r@ == (WalkState { phase: Phase::Env, start: 0, offset: 0, records: Seq::empty() }),
    {
        Walker { phase: Phase::Env, start: 0, offset: 0, records: Vec::new() }
    }

    /// A walker at the first entry of the vector, for a caller that
    /// knows where the vector starts.
    pub fn at_entries() -> (r: Walker)
        ensures
            r@ == (WalkState { phase: Phase::Key, start: 0, offset: 0, records: Seq::empty() }),
    {
        Walker { phase: Phase::Key, start: 0, offset: 0, records: Vec::new() }
    }

    /// The offset, in words, of the next word to read.
    pub fn offset(&self) -> (r: usize)
        ensures
            r == self@.offset,
    {
        self.offset
    }

    /// The offset, in words, of the first entry, once the environment
    /// array has ended.
    pub fn start(&self) -> (r: usize)
        ensures
            r == self@.start,
    {
        self.start
    }

    /// Whether the walker is still in the environment array.
    pub fn in_env(&self) -> (r: bool)
        ensures
            r == (self@.phase == Phase::Env),
    {
        match self.phase {
            Phase::Env => true,
            _ => false,
        }
    }

    /// Whether the terminator has been read.
    pub fn is_done(&self) -> (r: bool)
        ensures
            r == (self@.phase == Phase::Done),
    {
        match self.phase {
            Phase::Done => true,
            _ => false,
        }
    }

    /// Takes in the word at [`Walker::offset`].
    pub fn feed(&mut self, word: Word)
        requires
            old(self)@.offset < usize::MAX,
        ensures
            final(self)@ == step_state(old(self)@, word),
    {
        proof {
            use_type_invariant(&*self);
        }
        let mut records = Vec::new();
        std::mem::swap(&mut records, &mut self.records);
        let offset = self.offset;
        let (phase, start, offset) = match self.phase {
            Phase::Env => if word == 0 {
                (Phase::Key, offset + 1, offset + 1)
            } else {
                (Phase::Env, self.start, offset + 1)
            },
            Phase::Key => if word == AT_NULL {
                (Phase::Done, self.start, offset)
            } else {
                (Phase::Val(word), self.start, offset + 1)
            },
            Phase::Val(k) => {
                records.push(AuxVal { key: Type(k), val: word });
                (Phase::Key, self.start, offset + 1)
            },
            Phase::Done => (Phase::Done, self.start, offset),
        };
        *self = Walker { phase, start, offset, records };
    }

    /// The entries read, once the terminator has been read.
    pub fn finish(self) -> (r: Option<AuxVec>)
        ensures
            r is Some <==> self@.phase == Phase::Done,
            r matches Some(v) ==> v.wf() && v@ == self@.records,
    {
        proof {
            use_type_invariant(&self);
        }
        assert(self.records@ == self@.records);
        match self.phase {
            Phase::Done => Some(AuxVec::from_records(self.records)),
            _ => None,
        }
    }
}

/// The walker in state `s` has read the words of `mem` before
/// `s.offset`, and holds what they say.
pub open spec fn tracks(mem: Seq<Word>, s: WalkState) -> bool {
    match s.phase {
        Phase::Env => s.offset <= mem.len() && s.records.len() == 0 && forall|j: int|
            0 <= j < s.offset ==> mem[j] != 0,
        _ => {
            &&& s.start >= 1
            &&& first_zero_at(mem, 0, s.start - 1)
            &&& s.records == records_view(mem, s.start as int, s.records.len())
            &&& forall|i: int| 0 <= i < s.records.len() ==> key_at(mem, s.start as int, i) != AT_NULL
            &&& match s.phase {
                Phase::Val(k) => {
                    &&& s.offset == s.start + 2 * s.records.len() + 1
                    &&& s.offset <= mem.len()
                    &&& k == key_at(mem, s.start as int, s.records.len() as int)
                    &&& k != AT_NULL
                },
                Phase::Done => pairs_end_at(mem, s.start as int, s.records.len() as int),
                _ => s.offset == s.start + 2 * s.records.len() && s.offset <= mem.len(),
            }
        },
    }
}

/// Reading the next word of `mem` keeps the walker in step with it.
proof fn lemma_step_tracks(mem: Seq<Word>, s: WalkState)
    requires
        tracks(mem, s),
        s.offset < mem.len(),
        s.phase != Phase::Done,
    ensures
        tracks(mem, step_state(s, mem[s.offset as int])),
{
    let t = step_state(s, mem[s.offset as int]);
    match s.phase {
        Phase::Env => {
            if mem[s.offset as int] == 0 {
                assert(t.records =~= records_view(mem, t.start as int, 0));
            }
        },
        Phase::Key => {},
        Phase::Val(k) => {
            let n = s.records.len();
            assert(t.records =~= records_view(mem, s.start as int, n + 1));
        },
        Phase::Done => {},
    }
}

/// Runs a [`Walker`] over `mem`, where `mem[0]` is the first word of
/// the environment array: the vector is the one that the pairs after
/// the array's null word hold, and `None` where `mem` ends first.
pub fn walk(mem: &[Word]) -> (r: Option<AuxVec>)
    ensures
        r matches Some(v) ==> v.wf() && exists|t: int|
            first_zero_at(mem@, 0, t) && pairs_end_at(mem@, t + 1, v@.len() as int) && v@
                == records_view(mem@, t + 1, v@.len()),
        (exists|t: int| first_zero_at(mem@, 0, t) && pairs_terminated(mem@, t + 1)) ==> r is Some,
{
    let mut w = Walker::new();
    while !w.is_done() && w.offset() < mem.len()
        invariant
            tracks(mem@, w@),
        decreases mem@.len() - w@.offset, if w@.phase == Phase::Done { 0int } else { 1int },
    {
        proof {
            lemma_step_tracks(mem@, w@);
        }
        let word = mem[w.offset()];
        w.feed(word);
    }
    if !w.is_done() {
        proof {
            lemma_walk_stuck(mem@, w@);
        }
        return None;
    }
    let r = w.finish();
    r
}

/// A walker that has read all of `mem` without reaching a terminator
/// shows that `mem` holds no terminated vector.
proof fn lemma_walk_stuck(mem: Seq<Word>, s: WalkState)
    requires
        tracks(mem, s),
        s.phase != Phase::Done,
        s.offset >= mem.len(),
    ensures
        !(exists|t: int| first_zero_at(mem, 0, t) && pairs_terminated(mem, t + 1)),
{
    match s.phase {
        Phase::Env => {
            assert forall|t: int| !first_zero_at(mem, 0, t) by {
                if first_zero_at(mem, 0, t) {
                    assert(mem[t] != 0);
                }
            }
        },
        Phase::Val(k) => {
            let n = s.records.len() as int;
            assert forall|t: int| first_zero_at(mem, 0, t) implies !pairs_terminated(mem, t + 1) by {
                lemma_first_zero_unique(mem, t, s.start - 1);
                lemma_pairs_not_terminated(mem, t + 1, n + 1);
            }
        },
        _ => {
            let n = s.records.len() as int;
            assert forall|t: int| first_zero_at(mem, 0, t) implies !pairs_terminated(mem, t + 1) by {
                lemma_first_zero_unique(mem, t, s.start - 1);
                lemma_pairs_not_terminated(mem, t + 1, n);
            }
        },
    }
}

/// There is one first null word.
proof fn lemma_first_zero_unique(mem: Seq<Word>, a: int, b: int)
    requires
        first_zero_at(mem, 0, a),
        first_zero_at(mem, 0, b),
    ensures
        a == b,
{
    if a < b {
        assert(mem[a] != 0);
    } else if b < a {
        assert(mem[b] != 0);
    }
}

} // verus!
