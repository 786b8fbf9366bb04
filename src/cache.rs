//! Decisions of the process-wide cache of the vector's address.
//!
//! The cache is one atomic word, the slot. It starts as
//! [`UNRESOLVED`]; the first resolver to publish moves it, by one
//! compare-and-set from [`UNRESOLVED`], to [`UNAVAILABLE`] or to the
//! address it found, and it never changes again. The atomic operations
//! belong to the caller; this module decides what each outcome means.

use vstd::prelude::*;

use crate::auxtype::Word;
use crate::locate::{first_zero_at, lemma_first_zero, stack_auxv_address, WORD_BYTES};

verus! {

/// The slot word before any resolver has published.
pub const UNRESOLVED: Word = 0;

/// The slot word that says no vector could be found.
pub const UNAVAILABLE: Word = 1;

/// What a published slot word means: `None` for [`UNAVAILABLE`],
/// else the address.
pub open spec fn meaning(w: Word) -> Option<Word> {
    if w == UNAVAILABLE {
        None
    } else {
        Some(w)
    }
}

/// The word that publishes the discovery result `found`: the address,
/// or [`UNAVAILABLE`] where there is none (a null or misaligned address
/// of `1` is none either).
pub open spec fn published(found: Option<Word>) -> Word {
    match found {
        Some(a) => if a == UNRESOLVED || a == UNAVAILABLE {
            UNAVAILABLE
        } else {
            a
        },
        None => UNAVAILABLE,
    }
}

/// The word that publishes a discovery result (see [`published`]).
pub fn publish_word(found: Option<Word>) -> (r: Word)
    ensures
        r != UNRESOLVED,
        r == published(found),
{
    match found {
        Some(a) => if a == UNRESOLVED || a == UNAVAILABLE {
            UNAVAILABLE
        } else {
            a
        },
        None => UNAVAILABLE,
    }
}

/// The fast path: what a loaded slot word says. `None` where nothing
/// is published yet and the caller must resolve; else the published
/// result.
pub fn cached(loaded: Word) -> (r: Option<Option<Word>>)
    ensures
        r == (if loaded == UNRESOLVED {
            None
        } else {
            Some(meaning(loaded))
        }),
{
    if loaded == UNRESOLVED {
        None
    } else if loaded == UNAVAILABLE {
        Some(None)
    } else {
        Some(Some(loaded))
    }
}

/// What a compare-and-set from [`UNRESOLVED`] to `mine` returns on a
/// slot that holds `slot`.
pub open spec fn cas_outcome(slot: Word, mine: Word) -> Result<Word, Word> {
    if slot == UNRESOLVED {
        Ok(UNRESOLVED)
    } else {
        Err(slot)
    }
}

/// The published word that a resolver uses after its compare-and-set.
pub open spec fn settled(mine: Word, cas: Result<Word, Word>) -> Word {
    match cas {
        Ok(_) => mine,
        Err(current) => current,
    }
}

/// After the compare-and-set that published `mine` (`Ok`) or lost to
/// an earlier resolver (`Err` with the slot's word), the word that
/// holds: a loser takes the winner's word.
pub fn settle(mine: Word, cas: Result<Word, Word>) -> (r: Word)
    ensures
        r == settled(mine, cas),
{
    match cas {
        Ok(_) => mine,
        Err(current) => current,
    }
}

/// One atomic step on the slot by some thread.
pub enum SlotOp {
    /// A load on the fast path.
    Load,
    /// A compare-and-set from [`UNRESOLVED`] to the given word.
    Publish(Word),
}

/// The slot after the first `n` steps of `ops`.
pub open spec fn slot_after(ops: Seq<SlotOp>, n: nat) -> Word
    decreases n,
{
    if n == 0 || n > ops.len() {
        UNRESOLVED
    } else {
        let s = slot_after(ops, (n - 1) as nat);
        match ops[n - 1] {
            SlotOp::Load => s,
            SlotOp::Publish(w) => if s == UNRESOLVED {
                w
            } else {
                s
            },
        }
    }
}

/// What step `i` of `ops` sees: the loaded word, or the word that
/// holds after its compare-and-set.
pub open spec fn observed(ops: Seq<SlotOp>, i: nat) -> Word {
    let s = slot_after(ops, i);
    match ops[i as int] {
        SlotOp::Load => s,
        SlotOp::Publish(w) => settled(w, cas_outcome(s, w)),
    }
}

/// Resolvers that race agree: in any interleaving of loads and
/// compare-and-sets on the slot, where every resolver publishes the
/// same word `w` (discovery is deterministic), every compare-and-set
/// leaves its thread with `w`, and every load sees either
/// [`UNRESOLVED`] or `w`, never another word.
pub proof fn lemma_resolvers_agree(ops: Seq<SlotOp>, w: Word)
    requires
        w != UNRESOLVED,
        forall|i: int| 0 <= i < ops.len() ==> (#[trigger] ops[i] matches SlotOp::Publish(x) ==> x == w),
    ensures
        forall|i: nat| i < ops.len() ==> (#[trigger] ops[i as int] matches SlotOp::Publish(_)
            ==> observed(ops, i) == w),
        forall|i: nat| i < ops.len() ==> (#[trigger] observed(ops, i) == UNRESOLVED
            || observed(ops, i) == w),
{
    assert forall|i: nat| i < ops.len() implies (ops[i as int] matches SlotOp::Publish(_)
        ==> observed(ops, i) == w) && (observed(ops, i) == UNRESOLVED || observed(ops, i) == w) by {
        lemma_slot_stays(ops, w, i);
    }
}

/// Resolution agrees on the discovered address: where every resolver
/// discovers the same result `found` (the stack is the same for all
/// threads) and publishes it, in any interleaving of single-word atomic
/// loads and compare-and-sets on the slot, every resolver ends with
/// the meaning of [`published`]`(found)` (the address where one was
/// found, else unavailable), every load sees [`UNRESOLVED`] or that
/// word, and the slot changes at most once: from [`UNRESOLVED`] to that
/// word, by the first compare-and-set.
pub proof fn lemma_resolution_agrees(ops: Seq<SlotOp>, found: Option<Word>)
    requires
        forall|i: int|
            0 <= i < ops.len() ==> (#[trigger] ops[i] matches SlotOp::Publish(x) ==> x
                == published(found)),
    ensures
        forall|i: nat| i < ops.len() ==> (#[trigger] ops[i as int] matches SlotOp::Publish(_)
            ==> observed(ops, i) == published(found) && meaning(observed(ops, i)) == (
        match found {
            Some(a) => if a == UNRESOLVED || a == UNAVAILABLE {
                None
            } else {
                Some(a)
            },
            None => None,
        })),
        forall|i: nat| i < ops.len() ==> (#[trigger] observed(ops, i) == UNRESOLVED
            || observed(ops, i) == published(found)),
        forall|n: nat|
            n < ops.len() ==> (#[trigger] slot_after(ops, n + 1) == slot_after(ops, n) || (
            slot_after(ops, n) == UNRESOLVED && slot_after(ops, n + 1) == published(found))),
        forall|n: nat|
            n <= ops.len() ==> (#[trigger] slot_after(ops, n) == UNRESOLVED || slot_after(ops, n)
                == published(found)),
{
    let w = published(found);
    lemma_resolvers_agree(ops, w);
    assert forall|n: nat| n <= ops.len() implies (#[trigger] slot_after(ops, n) == UNRESOLVED
        || slot_after(ops, n) == w) by {
        lemma_slot_stays(ops, w, n);
    }
    assert forall|n: nat| n < ops.len() implies (#[trigger] slot_after(ops, n + 1) == slot_after(
        ops,
        n,
    ) || (slot_after(ops, n) == UNRESOLVED && slot_after(ops, n + 1) == w)) by {
        lemma_slot_stays(ops, w, n);
        assert(slot_after(ops, n + 1) == match ops[n as int] {
            SlotOp::Load => slot_after(ops, n),
            SlotOp::Publish(x) => if slot_after(ops, n) == UNRESOLVED {
                x
            } else {
                slot_after(ops, n)
            },
        });
    }
}

/// Racing first calls agree on the address after the environment:
/// where the stack `mem` (word `0` at `envp_addr`, the environment
/// array) has its first null word at `k`, and every resolver publishes
/// what it discovers on that stack, every resolver ends with the
/// address `envp_addr + (k + 1)` words, every load sees that address
/// or [`UNRESOLVED`], and once any resolver has published, the slot
/// holds that address for good.
pub proof fn lemma_stack_resolution_agrees(
    ops: Seq<SlotOp>,
    mem: Seq<Word>,
    envp_addr: Word,
    k: int,
)
    requires
        first_zero_at(mem, 0, k),
        1 < envp_addr + WORD_BYTES * (k + 1) <= u64::MAX,
        forall|i: int|
            0 <= i < ops.len() ==> (#[trigger] ops[i] matches SlotOp::Publish(x) ==> x
                == published(stack_auxv_address(mem, envp_addr))),
    ensures
        forall|i: nat| i < ops.len() ==> (#[trigger] ops[i as int] matches SlotOp::Publish(_)
            ==> observed(ops, i) == envp_addr + WORD_BYTES * (k + 1) && meaning(observed(ops, i))
            == Some((envp_addr + WORD_BYTES * (k + 1)) as Word)),
        forall|i: nat| i < ops.len() ==> (#[trigger] observed(ops, i) == UNRESOLVED
            || observed(ops, i) == envp_addr + WORD_BYTES * (k + 1)),
        forall|i: nat, n: nat|
            i < n <= ops.len() && ops[i as int] is Publish ==> #[trigger] slot_after(ops, n)
                == envp_addr + WORD_BYTES * (k + 1) && #[trigger] ops[i as int] is Publish,
{
    lemma_first_zero(mem, 0, k);
    let a = (envp_addr + WORD_BYTES * (k + 1)) as Word;
    assert(stack_auxv_address(mem, envp_addr) == Some(a));
    assert(published(Some(a)) == a);
    lemma_resolution_agrees(ops, Some(a));
    assert forall|i: nat, n: nat|
        i < n <= ops.len() && ops[i as int] is Publish implies #[trigger] slot_after(ops, n) == a
        && #[trigger] ops[i as int] is Publish by {
        lemma_slot_stays(ops, a, i);
        lemma_slot_kept(ops, a, i + 1, n);
    }
}

/// Once the slot holds `w`, it keeps it.
proof fn lemma_slot_kept(ops: Seq<SlotOp>, w: Word, m: nat, n: nat)
    requires
        w != UNRESOLVED,
        m <= n <= ops.len(),
        slot_after(ops, m) == w,
    ensures
        slot_after(ops, n) == w,
    decreases n - m,
{
    if m < n {
        lemma_slot_kept(ops, w, m + 1, n);
    }
}

/// The slot only ever holds [`UNRESOLVED`] or `w`.
proof fn lemma_slot_stays(ops: Seq<SlotOp>, w: Word, n: nat)
    requires
        forall|i: int| 0 <= i < ops.len() ==> (#[trigger] ops[i] matches SlotOp::Publish(x) ==> x == w),
    ensures
        slot_after(ops, n) == UNRESOLVED || slot_after(ops, n) == w,
    decreases n,
{
    if n > 0 && n <= ops.len() {
        lemma_slot_stays(ops, w, (n - 1) as nat);
    }
}

} // verus!
