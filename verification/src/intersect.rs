//! The intersection of a list of move sets.

use vstd::prelude::*;
use crate::grid::Direction;
use crate::moveset::MoveSet;

verus! {

/// The directions that lie in every set of a list. The intersection of no
/// sets at all is taken to be empty.
pub open spec fn intersection(sets: Seq<MoveSet>) -> Set<Direction> {
    Set::new(
        |d: Direction|
            sets.len() > 0 && forall|i: int| 0 <= i < sets.len() ==> (#[trigger] sets[i])@.contains(d),
    )
}

/// The directions common to all of `sets`, and none where `sets` is empty.
/// The sets are taken in turn; once nothing is left the rest is not looked
/// at.
pub fn find_intersection(sets: Vec<MoveSet>) -> (common: MoveSet)
    ensures
        common@ == intersection(sets@),
        sets@.len() == 0 ==> common@ == Set::<Direction>::empty(),
{
    if sets.len() == 0 {
        let nothing = MoveSet::none();
        assert(nothing@ =~= intersection(sets@));
        return nothing;
    }
    let mut common = sets[0];
    proof {
        assert(sets@.take(1) =~= seq![sets@[0]]);
        lemma_intersection_single(sets@[0]);
    }
    let mut i: usize = 1;
    while i < sets.len()
        invariant
            1 <= i <= sets.len(),
            common@ == intersection(sets@.take(i as int)),
        decreases sets.len() - i,
    {
        if common.is_empty() {
            proof {
                lemma_intersection_prefix(sets@, i as int);
                assert(intersection(sets@) =~= Set::<Direction>::empty());
            }
            return common;
        }
        common = common.intersect(&sets[i]);
        proof {
            let shorter = sets@.take(i as int);
            let longer = sets@.take(i + 1);
            assert forall|d: Direction|
                intersection(longer).contains(d) <==> intersection(shorter).contains(d)
                    && sets@[i as int]@.contains(d) by {
                if intersection(longer).contains(d) {
                    assert forall|j: int| 0 <= j < shorter.len() implies (#[trigger] shorter[j])@.contains(
                        d,
                    ) by {
                        assert(longer[j] == shorter[j]);
                    }
                    assert(longer[i as int] == sets@[i as int]);
                }
                if intersection(shorter).contains(d) && sets@[i as int]@.contains(d) {
                    assert forall|j: int| 0 <= j < longer.len() implies (#[trigger] longer[j])@.contains(
                        d,
                    ) by {
                        if j < i {
                            assert(longer[j] == shorter[j]);
                        }
                    }
                }
            }
            assert(common@ =~= intersection(longer));
        }
        i += 1;
    }
    proof {
        assert(sets@.take(i as int) =~= sets@);
    }
    common
}

/// What lies in every set of a list lies in every set of each of its
/// prefixes.
pub proof fn lemma_intersection_prefix(sets: Seq<MoveSet>, n: int)
    requires
        1 <= n <= sets.len(),
    ensures
        intersection(sets).subset_of(intersection(sets.take(n))),
{
    let prefix = sets.take(n);
    assert forall|d: Direction| intersection(sets).contains(d) implies intersection(
        prefix,
    ).contains(d) by {
        assert forall|j: int| 0 <= j < prefix.len() implies (#[trigger] prefix[j])@.contains(d) by {
            assert(prefix[j] == sets[j]);
        }
    }
}

/// The intersection of a single set is that set.
pub proof fn lemma_intersection_single(a: MoveSet)
    ensures
        intersection(seq![a]) == a@,
{
    let sets = seq![a];
    assert forall|d: Direction| a@.contains(d) implies intersection(sets).contains(d) by {
        assert forall|i: int| 0 <= i < sets.len() implies (#[trigger] sets[i])@.contains(d) by {}
    }
    assert forall|d: Direction| intersection(sets).contains(d) implies a@.contains(d) by {
        assert(sets[0]@.contains(d));
    }
    assert(intersection(sets) =~= a@);
}

/// The intersection of two sets holds what lies in both, whichever comes
/// first.
pub proof fn lemma_intersection_pair(a: MoveSet, b: MoveSet)
    ensures
        intersection(seq![a, b]) == a@.intersect(b@),
        intersection(seq![a, b]) == intersection(seq![b, a]),
{
    lemma_intersection_order_free(seq![a, b], seq![a, b]);
    lemma_intersection_order_free(seq![b, a], seq![a, b]);
    let ab = seq![a, b];
    assert forall|d: Direction| intersection(ab).contains(d) <==> a@.contains(d) && b@.contains(
        d,
    ) by {
        if intersection(ab).contains(d) {
            assert(ab[0]@.contains(d));
            assert(ab[1]@.contains(d));
        }
        if a@.contains(d) && b@.contains(d) {
            assert forall|i: int| 0 <= i < ab.len() implies (#[trigger] ab[i])@.contains(d) by {}
        }
    }
    assert(intersection(ab) =~= a@.intersect(b@));
}

/// A list with an empty set in it has an empty intersection.
pub proof fn lemma_intersection_with_empty(sets: Seq<MoveSet>, k: int)
    requires
        0 <= k < sets.len(),
        sets[k]@ == Set::<Direction>::empty(),
    ensures
        intersection(sets) == Set::<Direction>::empty(),
{
    assert forall|d: Direction| !intersection(sets).contains(d) by {
        assert(!sets[k]@.contains(d));
    }
    assert(intersection(sets) =~= Set::<Direction>::empty());
}

/// The intersection does not depend on the order of the list, nor on how
/// often a set occurs in it: two non-empty lists with the same sets in them
/// have the same intersection.
pub proof fn lemma_intersection_order_free(first: Seq<MoveSet>, second: Seq<MoveSet>)
    requires
        first.len() > 0,
        second.len() > 0,
        forall|s: MoveSet| first.contains(s) <==> second.contains(s),
    ensures
        intersection(first) == intersection(second),
{
    assert forall|d: Direction| intersection(first).contains(d) implies intersection(
        second,
    ).contains(d) by {
        assert forall|j: int| 0 <= j < second.len() implies (#[trigger] second[j])@.contains(d) by {
            assert(second.contains(second[j]));
            let i = choose|i: int| 0 <= i < first.len() && first[i] == second[j];
            assert(first[i]@.contains(d));
        }
    }
    assert forall|d: Direction| intersection(second).contains(d) implies intersection(
        first,
    ).contains(d) by {
        assert forall|j: int| 0 <= j < first.len() implies (#[trigger] first[j])@.contains(d) by {
            assert(first.contains(first[j]));
            let i = choose|i: int| 0 <= i < second.len() && second[i] == first[j];
            assert(second[i]@.contains(d));
        }
    }
    assert(intersection(first) =~= intersection(second));
}

} // verus!
