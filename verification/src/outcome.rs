//! Aggregation of per-cell verification outcomes: the fan-in half of the
//! batch. Workers report one `(position, oracle result)` pair per cell; this
//! module classifies those pairs into verified and unverified positions, or
//! surfaces the first hard oracle error.

use vstd::prelude::*;
use crate::data::Position;

verus! {

/// What one worker reports for one cell: the cell's position and the oracle's
/// result. `Ok(true)` means the proof checked out, `Ok(false)` means the
/// check ran but the proof did not verify, `Err(_)` is a hard failure of the
/// oracle itself.
pub type Outcome<E> = (Position, Result<bool, E>);

/// Whether the outcome classifies the cell as verified.
pub open spec fn is_verified<E>(o: Outcome<E>) -> bool {
    o.1 == Ok::<bool, E>(true)
}

/// Whether the outcome classifies the cell as unverified.
pub open spec fn is_unverified<E>(o: Outcome<E>) -> bool {
    o.1 == Ok::<bool, E>(false)
}

/// Whether any outcome of the batch is a hard oracle error.
pub open spec fn has_error<E>(s: Seq<Outcome<E>>) -> bool {
    exists|i: int| 0 <= i < s.len() && (#[trigger] s[i].1) is Err
}

/// The positions classified as verified, in outcome order.
pub open spec fn verified_of<E>(s: Seq<Outcome<E>>) -> Seq<Position>
    decreases s.len(),
{
    if s.len() == 0 {
        Seq::empty()
    } else if is_verified(s.last()) {
        verified_of(s.drop_last()).push(s.last().0)
    } else {
        verified_of(s.drop_last())
    }
}

/// Whether `e` is the first hard error of the batch: some outcome failed
/// with `e` and every outcome before it ran without a hard error.
pub open spec fn first_error_is<E>(s: Seq<Outcome<E>>, e: E) -> bool {
    exists|i: int|
        {
            &&& 0 <= i < s.len()
            &&& (#[trigger] s[i].1) is Err
            &&& e == s[i].1->Err_0
            &&& forall|j: int| 0 <= j < i ==> (#[trigger] s[j].1) is Ok
        }
}

/// The positions classified as unverified, in outcome order.
pub open spec fn unverified_of<E>(s: Seq<Outcome<E>>) -> Seq<Position>
    decreases s.len(),
{
    if s.len() == 0 {
        Seq::empty()
    } else if is_unverified(s.last()) {
        unverified_of(s.drop_last()).push(s.last().0)
    } else {
        unverified_of(s.drop_last())
    }
}

/// The positions of a batch of outcomes, in outcome order.
pub open spec fn positions_of<E>(s: Seq<Outcome<E>>) -> Seq<Position> {
    s.map_values(|o: Outcome<E>| o.0)
}

/// A position occurs in the verified list once per outcome `(p, Ok(true))`.
proof fn lemma_verified_count<E>(s: Seq<Outcome<E>>, p: Position)
    ensures
        verified_of(s).to_multiset().count(p) == s.to_multiset().count(
            (p, Ok::<bool, E>(true)),
        ),
    decreases s.len(),
{
    broadcast use vstd::seq_lib::group_to_multiset_ensures;
    broadcast use vstd::multiset::group_multiset_axioms;

    if s.len() == 0 {
        assert(verified_of(s).to_multiset().len() == 0);
        assert(s.to_multiset().len() == 0);
    } else {
        let rest = s.drop_last();
        let last = s.last();
        lemma_verified_count::<E>(rest, p);
        assert(s =~= rest.push(last));
        assert(rest.push(last).to_multiset() =~= rest.to_multiset().insert(last));
        if is_verified(last) {
            assert(verified_of(s) == verified_of(rest).push(last.0));
            assert(verified_of(rest).push(last.0).to_multiset() =~= verified_of(
                rest,
            ).to_multiset().insert(last.0));
            assert(last == (last.0, Ok::<bool, E>(true)));
        } else {
            assert(verified_of(s) == verified_of(rest));
            assert(last != (p, Ok::<bool, E>(true)));
        }
    }
}

/// A position occurs in the unverified list once per outcome
/// `(p, Ok(false))`.
proof fn lemma_unverified_count<E>(s: Seq<Outcome<E>>, p: Position)
    ensures
        unverified_of(s).to_multiset().count(p) == s.to_multiset().count(
            (p, Ok::<bool, E>(false)),
        ),
    decreases s.len(),
{
    broadcast use vstd::seq_lib::group_to_multiset_ensures;
    broadcast use vstd::multiset::group_multiset_axioms;

    if s.len() == 0 {
        assert(unverified_of(s).to_multiset().len() == 0);
        assert(s.to_multiset().len() == 0);
    } else {
        let rest = s.drop_last();
        let last = s.last();
        lemma_unverified_count::<E>(rest, p);
        assert(s =~= rest.push(last));
        assert(rest.push(last).to_multiset() =~= rest.to_multiset().insert(last));
        if is_unverified(last) {
            assert(unverified_of(s) == unverified_of(rest).push(last.0));
            assert(unverified_of(rest).push(last.0).to_multiset() =~= unverified_of(
                rest,
            ).to_multiset().insert(last.0));
            assert(last == (last.0, Ok::<bool, E>(false)));
        } else {
            assert(unverified_of(s) == unverified_of(rest));
            assert(last != (p, Ok::<bool, E>(false)));
        }
    }
}

/// With no hard error in the batch, a position occurs among the outcomes'
/// positions once per `(p, Ok(true))` plus once per `(p, Ok(false))`.
proof fn lemma_position_count<E>(s: Seq<Outcome<E>>, p: Position)
    requires
        forall|i: int| 0 <= i < s.len() ==> (#[trigger] s[i].1) is Ok,
    ensures
        positions_of(s).to_multiset().count(p) == s.to_multiset().count((p, Ok::<bool, E>(true)))
            + s.to_multiset().count((p, Ok::<bool, E>(false))),
    decreases s.len(),
{
    broadcast use vstd::seq_lib::group_to_multiset_ensures;
    broadcast use vstd::multiset::group_multiset_axioms;

    if s.len() == 0 {
        assert(positions_of(s).to_multiset().len() == 0);
        assert(s.to_multiset().len() == 0);
    } else {
        let rest = s.drop_last();
        let last = s.last();
        assert(forall|i: int| 0 <= i < rest.len() ==> (#[trigger] rest[i].1) is Ok);
        lemma_position_count::<E>(rest, p);
        assert(s =~= rest.push(last));
        assert(rest.push(last).to_multiset() =~= rest.to_multiset().insert(last));
        assert(positions_of(s) =~= positions_of(rest).push(last.0));
        assert(positions_of(rest).push(last.0).to_multiset() =~= positions_of(
            rest,
        ).to_multiset().insert(last.0));
        assert(last.1 is Ok);
        if last.1->Ok_0 {
            assert(last == (last.0, Ok::<bool, E>(true)));
        } else {
            assert(last == (last.0, Ok::<bool, E>(false)));
        }
    }
}

/// Order independence of the classification: two batches that hold the same
/// outcomes, in any orders, classify the same positions the same way. The
/// partition is a function of the multiset of outcomes alone.
pub proof fn lemma_partition_order_independent<E>(s1: Seq<Outcome<E>>, s2: Seq<Outcome<E>>)
    requires
        s1.to_multiset() == s2.to_multiset(),
    ensures
        verified_of(s1).to_multiset() == verified_of(s2).to_multiset(),
        unverified_of(s1).to_multiset() == unverified_of(s2).to_multiset(),
{
    broadcast use vstd::multiset::group_multiset_axioms;

    assert(verified_of(s1).to_multiset() =~= verified_of(s2).to_multiset()) by {
        assert forall|p: Position|
            verified_of(s1).to_multiset().count(p) == verified_of(s2).to_multiset().count(p) by {
            lemma_verified_count::<E>(s1, p);
            lemma_verified_count::<E>(s2, p);
        }
    }
    assert(unverified_of(s1).to_multiset() =~= unverified_of(s2).to_multiset()) by {
        assert forall|p: Position|
            unverified_of(s1).to_multiset().count(p) == unverified_of(s2).to_multiset().count(
                p,
            ) by {
            lemma_unverified_count::<E>(s1, p);
            lemma_unverified_count::<E>(s2, p);
        }
    }
}

/// Partition correctness, stated over membership: a position is classified
/// verified exactly when some outcome reports it `Ok(true)`, and unverified
/// exactly when some outcome reports it `Ok(false)`.
pub proof fn lemma_partition_membership<E>(s: Seq<Outcome<E>>, p: Position)
    ensures
        verified_of(s).contains(p) <==> s.contains((p, Ok::<bool, E>(true))),
        unverified_of(s).contains(p) <==> s.contains((p, Ok::<bool, E>(false))),
{
    broadcast use vstd::seq_lib::group_to_multiset_ensures;
    broadcast use vstd::multiset::group_multiset_axioms;

    lemma_verified_count::<E>(s, p);
    lemma_unverified_count::<E>(s, p);
}

/// Completeness of the classification: when no outcome is a hard error,
/// every outcome's position lands in exactly one of the two lists, so the
/// two multisets of classified positions add up to the multiset of all
/// outcome positions, and the lengths add up to the number of outcomes.
pub proof fn lemma_partition_complete<E>(s: Seq<Outcome<E>>)
    requires
        !has_error(s),
    ensures
        verified_of(s).len() + unverified_of(s).len() == s.len(),
        verified_of(s).to_multiset().add(unverified_of(s).to_multiset()) == positions_of(
            s,
        ).to_multiset(),
{
    broadcast use vstd::seq_lib::group_to_multiset_ensures;
    broadcast use vstd::multiset::group_multiset_axioms;

    assert forall|i: int| 0 <= i < s.len() implies (#[trigger] s[i].1) is Ok by {
        if s[i].1 is Err {
            assert(has_error(s));
        }
    }
    assert(verified_of(s).to_multiset().add(unverified_of(s).to_multiset()) =~= positions_of(
        s,
    ).to_multiset()) by {
        assert forall|p: Position|
            verified_of(s).to_multiset().add(unverified_of(s).to_multiset()).count(p)
                == positions_of(s).to_multiset().count(p) by {
            lemma_verified_count::<E>(s, p);
            lemma_unverified_count::<E>(s, p);
            lemma_position_count::<E>(s, p);
        }
    }
    assert(verified_of(s).to_multiset().len() == verified_of(s).len());
    assert(unverified_of(s).to_multiset().len() == unverified_of(s).len());
    assert(positions_of(s).to_multiset().len() == positions_of(s).len());
}

/// Splits a batch of outcomes into the verified and the unverified positions.
///
/// The first hard oracle error wins: if outcome `i` is the first `Err`, its
/// error is returned and no partition is produced. Otherwise every position
/// is classified into exactly one of the two lists, in outcome order.
#[verifier::loop_isolation(false)]
pub fn partition_outcomes<E>(outcomes: Vec<Outcome<E>>) -> (r: Result<
    (Vec<Position>, Vec<Position>),
    E,
>)
    ensures
        match r {
            Ok(lists) => {
                &&& !has_error(outcomes@)
                &&& lists.0@ == verified_of(outcomes@)
                &&& lists.1@ == unverified_of(outcomes@)
            },
            Err(e) => first_error_is(outcomes@, e),
        },
{
    let ghost all = outcomes@;
    let mut rest = outcomes;
    let mut verified: Vec<Position> = Vec::new();
    let mut unverified: Vec<Position> = Vec::new();
    while rest.len() > 0
        invariant
            rest@.len() <= all.len(),
            rest@ == all.subrange(all.len() - rest@.len(), all.len() as int),
            verified@ == verified_of(all.take(all.len() - rest@.len())),
            unverified@ == unverified_of(all.take(all.len() - rest@.len())),
            forall|j: int|
                0 <= j < all.len() - rest@.len() ==> (#[trigger] all[j].1) is Ok,
        decreases rest@.len(),
    {
        let ghost k = all.len() - rest@.len();
        let (position, result) = rest.remove(0);
        proof {
            assert(all.subrange(k, all.len() as int)[0] == all[k]);
            assert(all[k] == (position, result));
            assert(rest@ =~= all.subrange(k + 1, all.len() as int));
            assert(all.take(k + 1).drop_last() =~= all.take(k));
            assert(all.take(k + 1).last() == all[k]);
        }
        match result {
            Ok(true) => verified.push(position),
            Ok(false) => unverified.push(position),
            Err(e) => {
                proof {
                    assert(first_error_is(outcomes@, e)) by {
                        assert(0 <= k < all.len() && (#[trigger] all[k].1) is Err
                            && e == all[k].1->Err_0
                            && forall|j: int| 0 <= j < k ==> (#[trigger] all[j].1) is Ok);
                    }
                }
                return Err(e);
            },
        }
    }
    proof {
        assert(all.take(all.len() as int) =~= all);
    }
    Ok((verified, unverified))
}

} // verus!

