//! Helpers for the duplicate-free lists of auction ids kept by the
//! execution queue's buckets and by the per-participant caches.

use vstd::prelude::*;

use crate::AuctionId;

verus! {

/// True when no id occurs twice in the list.
pub open spec fn distinct_ids(s: Seq<AuctionId>) -> bool {
    forall|i: int, j: int| 0 <= i < j < s.len() ==> s[i] != s[j]
}

/// The list with every occurrence of `x` removed, order otherwise kept.
pub open spec fn seq_without_id(s: Seq<AuctionId>, x: AuctionId) -> Seq<AuctionId>
    decreases s.len(),
{
    if s.len() == 0 {
        Seq::empty()
    } else if s.last() == x {
        seq_without_id(s.drop_last(), x)
    } else {
        seq_without_id(s.drop_last(), x).push(s.last())
    }
}

/// Removal really removes `x`, keeps every other id exactly as often as
/// it occurred, and never grows the list.
pub proof fn lemma_seq_without_id(s: Seq<AuctionId>, x: AuctionId)
    ensures
        !seq_without_id(s, x).contains(x),
        forall|y: AuctionId| y != x ==> #[trigger] seq_without_id(s, x).contains(y) == s.contains(
            y,
        ),
        seq_without_id(s, x).len() <= s.len(),
        distinct_ids(s) ==> distinct_ids(seq_without_id(s, x)),
        forall|i: int|
            0 <= i < seq_without_id(s, x).len() ==> s.contains(#[trigger] seq_without_id(s, x)[i]),
    decreases s.len(),
{
    if s.len() > 0 {
        lemma_seq_without_id(s.drop_last(), x);
        assert forall|y: AuctionId| #[trigger] s.drop_last().contains(y) implies s.contains(
            y,
        ) by {
            let i = choose|i: int| 0 <= i < s.drop_last().len() && s.drop_last()[i] == y;
            assert(s[i] == y);
        }
        assert forall|y: AuctionId| s.contains(y) implies s.drop_last().contains(y) || y
            == s.last() by {
            let i = choose|i: int| 0 <= i < s.len() && s[i] == y;
            if i < s.len() - 1 {
                assert(s.drop_last()[i] == y);
            }
        }
        let r = seq_without_id(s, x);
        let r0 = seq_without_id(s.drop_last(), x);
        if s.last() != x {
            assert(forall|i: int| 0 <= i < r0.len() ==> r[i] == r0[i]);
            assert forall|y: AuctionId| #[trigger] r.contains(y) implies r0.contains(y) || y
                == s.last() by {
                let i = choose|i: int| 0 <= i < r.len() && r[i] == y;
                if i < r.len() - 1 {
                    assert(r0[i] == y);
                }
            }
            assert forall|y: AuctionId| r0.contains(y) implies #[trigger] r.contains(y) by {
                let i = choose|i: int| 0 <= i < r0.len() && r0[i] == y;
                assert(r[i] == y);
            }
            assert(r.contains(s.last())) by {
                assert(r[r.len() - 1] == s.last());
            }
        }
    }
}

/// An id occurs in a non-empty list exactly when it occurs before the
/// last position or is the last element.
pub proof fn lemma_contains_split_last(s: Seq<AuctionId>)
    requires
        s.len() > 0,
    ensures
        forall|y: AuctionId| #[trigger] s.contains(y) <==> (s.drop_last().contains(y) || y
            == s.last()),
{
    assert forall|y: AuctionId| s.contains(y) implies s.drop_last().contains(y) || y
        == s.last() by {
        let i = choose|i: int| 0 <= i < s.len() && s[i] == y;
        if i < s.len() - 1 {
            assert(s.drop_last()[i] == y);
        }
    }
    assert forall|y: AuctionId| s.drop_last().contains(y) implies s.contains(y) by {
        let i = choose|i: int| 0 <= i < s.drop_last().len() && s.drop_last()[i] == y;
        assert(s[i] == y);
    }
    assert(s[s.len() - 1] == s.last());
}

/// Appending one id adds exactly that id to the list's contents.
pub proof fn lemma_contains_push(s: Seq<AuctionId>, x: AuctionId)
    ensures
        forall|y: AuctionId| #[trigger] s.push(x).contains(y) <==> (s.contains(y) || y == x),
{
    assert forall|y: AuctionId| s.push(x).contains(y) implies (s.contains(y) || y == x) by {
        let i = choose|i: int| 0 <= i < s.push(x).len() && s.push(x)[i] == y;
        if i < s.len() {
            assert(s[i] == y);
        }
    }
    assert forall|y: AuctionId| s.contains(y) implies #[trigger] s.push(x).contains(y) by {
        let i = choose|i: int| 0 <= i < s.len() && s[i] == y;
        assert(s.push(x)[i] == y);
    }
    assert(s.push(x)[s.len() as int] == x);
}

/// Appending an id that is not yet present keeps the list
/// duplicate-free.
pub proof fn lemma_distinct_push(s: Seq<AuctionId>, x: AuctionId)
    requires
        distinct_ids(s),
        !s.contains(x),
    ensures
        distinct_ids(s.push(x)),
{
    assert forall|i: int, j: int| 0 <= i < j < s.push(x).len() implies s.push(x)[i] != s.push(
        x,
    )[j] by {
        if j == s.len() {
            assert(s.contains(s[i]));
        }
    }
}

/// A prefix of a duplicate-free list is duplicate-free.
pub proof fn lemma_take_distinct(s: Seq<AuctionId>, n: int)
    requires
        distinct_ids(s),
        0 <= n <= s.len(),
    ensures
        distinct_ids(s.take(n)),
{
}

/// Whether `x` occurs in the list.
pub fn vec_contains_id(v: &Vec<AuctionId>, x: AuctionId) -> (r: bool)
    ensures
        r == v@.contains(x),
{
    let mut i: usize = 0;
    while i < v.len()
        invariant
            0 <= i <= v@.len(),
            forall|j: int| 0 <= j < i ==> v@[j] != x,
        decreases v@.len() - i,
    {
        if v[i] == x {
            return true;
        }
        i = i + 1;
    }
    false
}

/// A copy of the list with every occurrence of `x` removed.
pub fn vec_without_id(v: &Vec<AuctionId>, x: AuctionId) -> (r: Vec<AuctionId>)
    ensures
        r@ == seq_without_id(v@, x),
{
    let mut out: Vec<AuctionId> = Vec::new();
    let mut i: usize = 0;
    while i < v.len()
        invariant
            0 <= i <= v@.len(),
            out@ == seq_without_id(v@.take(i as int), x),
        decreases v@.len() - i,
    {
        assert(v@.take(i + 1).drop_last() =~= v@.take(i as int));
        assert(v@.take(i + 1).last() == v@[i as int]);
        if v[i] != x {
            out.push(v[i]);
        }
        i = i + 1;
    }
    assert(v@.take(v@.len() as int) =~= v@);
    out
}

} // verus!
