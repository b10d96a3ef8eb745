//! Finding and counting the items of a sequence that equal a given one.

use vstd::prelude::*;

verus! {

/// The least index at which `s` holds `x`, if it holds `x` at all.
pub open spec fn first_index<T>(s: Seq<T>, x: T) -> Option<int>
    decreases s.len(),
{
    if s.len() == 0 {
        None
    } else {
        match first_index(s.drop_last(), x) {
            Some(i) => Some(i),
            None => if s.last() == x {
                Some(s.len() - 1)
            } else {
                None
            },
        }
    }
}

/// How many items of `s` equal `x`.
pub open spec fn count<T>(s: Seq<T>, x: T) -> nat
    decreases s.len(),
{
    if s.len() == 0 {
        0
    } else {
        count(s.drop_last(), x) + if s.last() == x {
            1nat
        } else {
            0nat
        }
    }
}

/// `first_index` gives an index that holds `x` and has no such index before
/// it, and gives none only where no index holds `x`.
pub proof fn lemma_first_index<T>(s: Seq<T>, x: T)
    ensures
        match first_index(s, x) {
            Some(i) => 0 <= i < s.len() && s[i] == x && forall|j: int| 0 <= j < i ==> s[j] != x,
            None => forall|j: int| 0 <= j < s.len() ==> s[j] != x,
        },
    decreases s.len(),
{
    if s.len() > 0 {
        lemma_first_index(s.drop_last(), x);
        assert(forall|j: int| 0 <= j < s.len() - 1 ==> s.drop_last()[j] == s[j]);
    }
}

/// What is found in a prefix of `s` is what is found in `s`.
pub proof fn lemma_first_index_prefix<T>(s: Seq<T>, k: int, x: T)
    requires
        0 <= k <= s.len(),
        first_index(s.take(k), x) is Some,
    ensures
        first_index(s, x) == first_index(s.take(k), x),
    decreases s.len() - k,
{
    if k == s.len() {
        assert(s.take(k) == s);
    } else {
        assert(s.take(k + 1).drop_last() == s.take(k));
        lemma_first_index_prefix(s, k + 1, x);
    }
}

/// Replacing one item moves one unit from the count of what stood there to
/// the count of what stands there now.
pub proof fn lemma_count_update<T>(s: Seq<T>, i: int, y: T, x: T)
    requires
        0 <= i < s.len(),
    ensures
        count(s.update(i, y), x) + (if s[i] == x {
            1nat
        } else {
            0nat
        }) == count(s, x) + (if y == x {
            1nat
        } else {
            0nat
        }),
    decreases s.len(),
{
    let t = s.update(i, y);
    if i == s.len() - 1 {
        assert(t.drop_last() == s.drop_last());
    } else {
        assert(t.drop_last() == s.drop_last().update(i, y));
        lemma_count_update(s.drop_last(), i, y, x);
    }
}

/// A sequence that holds `x` nowhere counts none of it, and the other way
/// round.
pub proof fn lemma_count_zero<T>(s: Seq<T>, x: T)
    ensures
        count(s, x) == 0 <==> forall|j: int| 0 <= j < s.len() ==> s[j] != x,
    decreases s.len(),
{
    if s.len() > 0 {
        lemma_count_zero(s.drop_last(), x);
        assert(forall|j: int| 0 <= j < s.len() - 1 ==> s.drop_last()[j] == s[j]);
        if count(s, x) == 0 {
            assert forall|j: int| 0 <= j < s.len() implies s[j] != x by {
                if j < s.len() - 1 {
                    assert(s.drop_last()[j] == s[j]);
                }
            }
        }
    }
}

} // verus!
