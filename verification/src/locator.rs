//! Ranking hospitals by their distance from the place of a call.

use vstd::prelude::*;
use vstd::seq_lib::*;
use crate::model::{views, Distance, HospitalWithDistance, HospitalWithDistanceView};

verus! {

/// No entry is nearer than an entry before it.
pub open spec fn ascending(list: Seq<HospitalWithDistanceView>) -> bool {
    forall|i: int, j: int| 0 <= i <= j < list.len() ==> list[i].distance.bits <= list[j].distance.bits
}

/// How many entries at the front of `list` are nearer than `distance`.
pub open spec fn nearer_prefix(list: Seq<HospitalWithDistanceView>, distance: Distance) -> int
    decreases list.len(),
{
    if list.len() == 0 || list[0].distance.bits >= distance.bits {
        0
    } else {
        1 + nearer_prefix(list.drop_first(), distance)
    }
}

/// The candidates from the nearest to the farthest. Candidates equally far keep
/// the order in which they were given.
pub open spec fn ranked(candidates: Seq<HospitalWithDistanceView>) -> Seq<HospitalWithDistanceView>
    decreases candidates.len(),
{
    if candidates.len() == 0 {
        Seq::empty()
    } else {
        let later = ranked(candidates.drop_first());
        later.insert(nearer_prefix(later, candidates[0].distance), candidates[0])
    }
}

/// The `limit` nearest candidates in ranked order, or all of them where there
/// are no more than `limit`.
pub open spec fn nearest(candidates: Seq<HospitalWithDistanceView>, limit: nat) -> Seq<
    HospitalWithDistanceView,
> {
    let all = ranked(candidates);
    if limit < all.len() {
        all.take(limit as int)
    } else {
        all
    }
}

/// The entries that are exactly `distance` away.
pub open spec fn at_distance(distance: Distance) -> spec_fn(HospitalWithDistanceView) -> bool {
    |entry: HospitalWithDistanceView| entry.distance == distance
}

proof fn lemma_nearer_prefix(list: Seq<HospitalWithDistanceView>, distance: Distance)
    ensures
        0 <= nearer_prefix(list, distance) <= list.len(),
        forall|i: int|
            0 <= i < nearer_prefix(list, distance) ==> (#[trigger] list[i]).distance.bits
                < distance.bits,
        nearer_prefix(list, distance) < list.len() ==> list[nearer_prefix(
            list,
            distance,
        )].distance.bits >= distance.bits,
    decreases list.len(),
{
    if list.len() > 0 && list[0].distance.bits < distance.bits {
        let rest = list.drop_first();
        lemma_nearer_prefix(rest, distance);
        assert forall|i: int| 0 <= i < nearer_prefix(list, distance) implies (#[trigger] list[i]).distance.bits
            < distance.bits by {
            if i > 0 {
                assert(list[i] == rest[i - 1]);
            }
        }
    }
}

/// Ranking keeps every candidate and puts the candidates in ascending order.
pub proof fn lemma_ranked_is_ascending(candidates: Seq<HospitalWithDistanceView>)
    ensures
        ranked(candidates).len() == candidates.len(),
        ascending(ranked(candidates)),
        ranked(candidates).to_multiset() == candidates.to_multiset(),
    decreases candidates.len(),
{
    if candidates.len() == 0 {
        assert(candidates =~= Seq::empty());
    } else {
        let first = candidates[0];
        let rest = candidates.drop_first();
        let later = ranked(rest);
        let place = nearer_prefix(later, first.distance);
        lemma_ranked_is_ascending(rest);
        lemma_nearer_prefix(later, first.distance);
        later.insert_ensures(place, first);
        let all = later.insert(place, first);
        assert forall|i: int, j: int| 0 <= i <= j < all.len() implies all[i].distance.bits
            <= all[j].distance.bits by {
            if i < place {
                assert(all[i] == later[i]);
                if j < place {
                    assert(all[j] == later[j]);
                } else if j > place {
                    assert(all[j] == later[j - 1]);
                }
            } else if i == place {
                if j > place {
                    assert(all[j] == later[j - 1]);
                }
            } else {
                assert(all[i] == later[i - 1]);
                assert(all[j] == later[j - 1]);
            }
        }
        to_multiset_insert(later, place, first);
        assert(candidates =~= rest.insert(0, first));
        to_multiset_insert(rest, 0, first);
    }
}

/// Ranking is stable: the candidates that are equally far stand in the ranked
/// list as they stood among the candidates, all of them and in the same order.
pub proof fn lemma_ranked_keeps_ties(candidates: Seq<HospitalWithDistanceView>, distance: Distance)
    ensures
        ranked(candidates).filter(at_distance(distance)) == candidates.filter(at_distance(distance)),
    decreases candidates.len(),
{
    let tied = at_distance(distance);
    if candidates.len() == 0 {
        assert(candidates =~= Seq::empty());
    } else {
        let first = candidates[0];
        let rest = candidates.drop_first();
        let later = ranked(rest);
        let place = nearer_prefix(later, first.distance);
        lemma_ranked_keeps_ties(rest, distance);
        lemma_nearer_prefix(later, first.distance);
        let front = later.subrange(0, place);
        let back = later.subrange(place, later.len() as int);
        assert(later =~= front + back);
        assert(candidates =~= seq![first] + rest);
        Seq::filter_distributes_over_add(front, back, tied);
        Seq::filter_distributes_over_add(front.push(first), back, tied);
        Seq::filter_distributes_over_add(seq![first], rest, tied);
        front.lemma_filter_push(first, tied);
        Seq::<HospitalWithDistanceView>::empty().lemma_filter_push(first, tied);
        assert(seq![first] =~= Seq::<HospitalWithDistanceView>::empty().push(first));
        assert(Seq::<HospitalWithDistanceView>::empty().filter(tied) =~= Seq::empty()) by {
            Seq::<HospitalWithDistanceView>::empty().lemma_filter_len(tied);
        }
        if tied(first) {
            assert(front.all(|entry: HospitalWithDistanceView| !tied(entry))) by {
                assert forall|i: int| 0 <= i < front.len() implies !tied(#[trigger] front[i]) by {
                    assert(front[i] == later[i]);
                }
            }
            front.lemma_all_neg_filter_empty(tied);
            assert(front.filter(tied) =~= Seq::empty());
            assert(front.filter(tied).push(first) + back.filter(tied) =~= seq![first] + (
            front.filter(tied) + back.filter(tied)));
        }
        assert(ranked(candidates).filter(tied) =~= candidates.filter(tied));
    }
}

fn nearer_prefix_of(list: &Vec<HospitalWithDistance>, distance: Distance) -> (place: usize)
    ensures
        place == nearer_prefix(views(list@), distance),
        place <= list.len(),
{
    let mut place: usize = 0;
    assert(views(list@).skip(0) =~= views(list@));
    while place < list.len() && list[place].distance.bits < distance.bits
        invariant
            place <= list.len(),
            nearer_prefix(views(list@), distance) == place + nearer_prefix(
                views(list@).skip(place as int),
                distance,
            ),
        decreases list.len() - place,
    {
        proof {
            let rest = views(list@).skip(place as int);
            assert(rest[0] == list[place as int]@);
            assert(rest.drop_first() =~= views(list@).skip(place + 1));
        }
        place += 1;
    }
    proof {
        let rest = views(list@).skip(place as int);
        if place < list.len() {
            assert(rest[0] == list[place as int]@);
        }
    }
    place
}

/// Ranks the candidates from the nearest to the farthest and keeps the `limit`
/// nearest. Candidates equally far keep the order in which they were given. With
/// no more than `limit` candidates all of them come back; with none, none.
pub fn find_nearest_hospitals(candidates: Vec<HospitalWithDistance>, limit: usize) -> (found: Vec<
    HospitalWithDistance,
>)
    ensures
        views(found@) == nearest(views(candidates@), limit as nat),
        ascending(views(found@)),
        found.len() == if limit < candidates.len() { limit } else { candidates.len() },
        candidates.len() <= limit ==> views(found@).to_multiset() == views(
            candidates@,
        ).to_multiset(),
        forall|distance: Distance|
            candidates.len() <= limit ==> views(found@).filter(#[trigger] at_distance(distance))
                == views(candidates@).filter(at_distance(distance)),
{
    let ghost given = views(candidates@);
    let mut waiting = candidates;
    let mut found: Vec<HospitalWithDistance> = Vec::new();
    assert(given.skip(given.len() as int) =~= Seq::empty());
    while waiting.len() > 0
        invariant
            waiting.len() <= given.len(),
            views(waiting@) == given.take(waiting.len() as int),
            views(found@) == ranked(given.skip(waiting.len() as int)),
            found.len() == given.len() - waiting.len(),
        decreases waiting.len(),
    {
        let ghost before = waiting@;
        let ghost count = waiting.len() as int;
        let candidate = waiting.pop().unwrap();
        let place = nearer_prefix_of(&found, candidate.distance);
        let ghost ranked_before = views(found@);
        found.insert(place, candidate);
        proof {
            assert(candidate@ == views(before)[count - 1]);
            assert(candidate@ == given[count - 1]);
            assert(given.skip(count - 1).drop_first() =~= given.skip(count));
            assert(given.skip(count - 1)[0] == given[count - 1]);
            assert(views(found@) =~= ranked_before.insert(place as int, candidate@));
            assert(views(waiting@) =~= given.take(count - 1));
        }
    }
    proof {
        assert(given.skip(0) =~= given);
        lemma_ranked_is_ascending(given);
        assert forall|distance: Distance|
            views(found@).filter(#[trigger] at_distance(distance)) == given.filter(
                at_distance(distance),
            ) by {
            lemma_ranked_keeps_ties(given, distance);
        }
    }
    let ghost all = views(found@);
    found.truncate(limit);
    proof {
        if limit < all.len() {
            assert(views(found@) =~= all.take(limit as int));
        } else {
            assert(views(found@) =~= all);
        }
    }
    found
}

} // verus!
