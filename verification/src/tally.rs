//! Counting and searching in flag and signer sequences, with the facts the
//! policy contracts and laws rest on.

use vstd::prelude::*;
use crate::types::Identity;

verus! {

/// How many entries of `s` are set.
pub open spec fn count_true(s: Seq<bool>) -> nat
    decreases s.len(),
{
    if s.len() == 0 {
        0
    } else {
        count_true(s.drop_last()) + (if s.last() { 1nat } else { 0nat })
    }
}

/// Whether every entry of `s` is set. Vacuously true of the empty sequence.
pub open spec fn all_true(s: Seq<bool>) -> bool {
    forall|i: int| 0 <= i < s.len() ==> s[i]
}

/// The first position of `x` in `s`. Meaningful when `s.contains(x)`.
pub open spec fn first_position(s: Seq<Identity>, x: Identity) -> int
    decreases s.len(),
{
    if s.len() == 0 {
        0
    } else if s[0] == x {
        0
    } else {
        1 + first_position(s.drop_first(), x)
    }
}

/// Where `x` occurs in `s`, `first_position` names its first occurrence.
pub proof fn lemma_first_position(s: Seq<Identity>, x: Identity)
    requires
        s.contains(x),
    ensures
        0 <= first_position(s, x) < s.len(),
        s[first_position(s, x)] == x,
        forall|j: int| 0 <= j < first_position(s, x) ==> s[j] != x,
    decreases s.len(),
{
    if s[0] != x {
        let i = choose|i: int| 0 <= i < s.len() && s[i] == x;
        assert(s.drop_first()[i - 1] == x);
        lemma_first_position(s.drop_first(), x);
        assert forall|j: int| 0 <= j < first_position(s, x) implies s[j] != x by {
            if j > 0 {
                assert(s.drop_first()[j - 1] != x);
            }
        }
    }
}

/// Setting one flag raises the count by one where it was clear and leaves
/// it unchanged where it was already set.
pub proof fn lemma_count_true_update(s: Seq<bool>, i: int)
    requires
        0 <= i < s.len(),
    ensures
        count_true(s.update(i, true)) == count_true(s) + (if s[i] { 0nat } else { 1nat }),
    decreases s.len(),
{
    let t = s.update(i, true);
    if i == s.len() - 1 {
        assert(t.drop_last() =~= s.drop_last());
    } else {
        assert(t.drop_last() =~= s.drop_last().update(i, true));
        lemma_count_true_update(s.drop_last(), i);
    }
}

/// The count of a prefix one longer, for counting by a loop.
pub proof fn lemma_count_true_take_step(s: Seq<bool>, k: int)
    requires
        0 <= k < s.len(),
    ensures
        count_true(s.take(k + 1)) == count_true(s.take(k)) + (if s[k] { 1nat } else { 0nat }),
{
    assert(s.take(k + 1).drop_last() =~= s.take(k));
}

} // verus!
