//! Choosing the hospital and the ambulance for a call.
//!
//! Of the five nearest hospitals the nearest that has an ambulance to send is
//! chosen, and the first such ambulance of its store. Every one of the five is
//! looked at, also after one with an ambulance has been found. A hospital is
//! chosen only where it is nearer than any distance: one whose distance is
//! infinite or no number is passed over.

use vstd::prelude::*;
use crate::availability::{available, find_available_ambulances};
use crate::error::DispatchError;
use crate::eta::INFINITY_BITS;
use crate::locator::{ascending, find_nearest_hospitals, lemma_ranked_is_ascending, nearest, ranked};
use crate::model::{
    views, Ambulance, AmbulanceView, Distance, Hospital, HospitalView, HospitalWithDistance,
    HospitalWithDistanceView,
};

verus! {

/// How many of the nearest hospitals are considered for a call.
pub const CANDIDATE_LIMIT: usize = 5;

/// The hospital and the ambulance assigned to a call, and how far the hospital
/// is from it.
#[derive(Debug, PartialEq)]
pub struct Assignment {
    pub hospital: Hospital,
    pub ambulance: Ambulance,
    pub distance: Distance,
}

pub struct AssignmentView {
    pub hospital: HospitalView,
    pub ambulance: AmbulanceView,
    pub distance: Distance,
}

impl View for Assignment {
    type V = AssignmentView;

    open spec fn view(&self) -> AssignmentView {
        AssignmentView {
            hospital: self.hospital@,
            ambulance: self.ambulance@,
            distance: self.distance,
        }
    }
}

/// Whether the hospital of a candidate has an ambulance to send.
pub open spec fn has_ambulance(
    candidate: HospitalWithDistanceView,
    ambulances: Seq<AmbulanceView>,
) -> bool {
    available(ambulances, candidate.hospital.hospital_id).len() > 0
}

/// Whether a candidate can be chosen: its distance is finite, and its hospital
/// has an ambulance to send. A hospital whose distance could not be told is
/// never chosen.
pub open spec fn can_serve(candidate: HospitalWithDistanceView, ambulances: Seq<AmbulanceView>) -> bool {
    candidate.distance.is_finite() && has_ambulance(candidate, ambulances)
}

/// Whether the candidate at `place` is the one to choose among the first `count`
/// candidates: it can serve, none of them that can serve is nearer, and those
/// before it that can serve are farther.
pub open spec fn is_choice_among(
    candidates: Seq<HospitalWithDistanceView>,
    ambulances: Seq<AmbulanceView>,
    count: int,
    place: int,
) -> bool {
    &&& 0 <= place < count <= candidates.len()
    &&& can_serve(candidates[place], ambulances)
    &&& forall|j: int|
        0 <= j < count && can_serve(#[trigger] candidates[j], ambulances)
            ==> candidates[place].distance.bits <= candidates[j].distance.bits
    &&& forall|j: int|
        0 <= j < place && can_serve(#[trigger] candidates[j], ambulances)
            ==> candidates[place].distance.bits < candidates[j].distance.bits
}

/// Whether the candidate at `place` is the one to choose among all candidates.
pub open spec fn is_choice(
    candidates: Seq<HospitalWithDistanceView>,
    ambulances: Seq<AmbulanceView>,
    place: int,
) -> bool {
    is_choice_among(candidates, ambulances, candidates.len() as int, place)
}

/// The assignment that chooses the candidate at `place`: its hospital, the
/// first ambulance of that hospital that can be sent, and its distance.
pub open spec fn assignment_at(
    candidates: Seq<HospitalWithDistanceView>,
    ambulances: Seq<AmbulanceView>,
    place: int,
) -> AssignmentView {
    AssignmentView {
        hospital: candidates[place].hospital,
        ambulance: available(ambulances, candidates[place].hospital.hospital_id)[0],
        distance: candidates[place].distance,
    }
}

/// The assignment among the candidates, where one of them can serve.
pub open spec fn choice(
    candidates: Seq<HospitalWithDistanceView>,
    ambulances: Seq<AmbulanceView>,
) -> Option<AssignmentView> {
    if exists|place: int| is_choice(candidates, ambulances, place) {
        Some(
            assignment_at(
                candidates,
                ambulances,
                choose|place: int| is_choice(candidates, ambulances, place),
            ),
        )
    } else {
        None
    }
}

/// How the selection for a call ends, given the registered hospitals with their
/// distances and the registered ambulances.
pub open spec fn selection(
    hospitals: Seq<HospitalWithDistanceView>,
    ambulances: Seq<AmbulanceView>,
) -> Result<AssignmentView, DispatchError> {
    if hospitals.len() == 0 {
        Err(DispatchError::NoHospitalsFound)
    } else {
        match choice(nearest(hospitals, CANDIDATE_LIMIT as nat), ambulances) {
            Some(assignment) => Ok(assignment),
            None => Err(DispatchError::NoAvailableAmbulance),
        }
    }
}

/// No two candidates are the one to choose.
pub proof fn lemma_choice_is_unique(
    candidates: Seq<HospitalWithDistanceView>,
    ambulances: Seq<AmbulanceView>,
    one: int,
    other: int,
)
    requires
        is_choice(candidates, ambulances, one),
        is_choice(candidates, ambulances, other),
    ensures
        one == other,
{
}

/// Among candidates in ascending order the one to choose is the first that can
/// serve.
pub proof fn lemma_choice_is_first_that_can_serve(
    candidates: Seq<HospitalWithDistanceView>,
    ambulances: Seq<AmbulanceView>,
    place: int,
)
    requires
        ascending(candidates),
        0 <= place < candidates.len(),
    ensures
        is_choice(candidates, ambulances, place) <==> (can_serve(candidates[place], ambulances)
            && forall|j: int|
            0 <= j < place ==> !can_serve(#[trigger] candidates[j], ambulances)),
{
}

/// The selection takes, among the five nearest hospitals, the nearest that can
/// serve: the hospital selected is among the five, it has an ambulance to send,
/// and no hospital among the five that can serve is nearer. The ambulance is one
/// of that hospital whose status is "Available". The selection fails for want of
/// an ambulance only where none of the five can serve, and for want of a hospital
/// only where none is registered.
pub proof fn lemma_selection_is_nearest_that_can_serve(
    hospitals: Seq<HospitalWithDistanceView>,
    ambulances: Seq<AmbulanceView>,
)
    ensures
        ({
            let top = nearest(hospitals, CANDIDATE_LIMIT as nat);
            match selection(hospitals, ambulances) {
                Ok(assignment) => {
                    &&& exists|place: int|
                        0 <= place < top.len() && (#[trigger] top[place]).hospital
                            == assignment.hospital && top[place].distance == assignment.distance
                            && can_serve(top[place], ambulances)
                    &&& forall|j: int|
                        0 <= j < top.len() && can_serve(#[trigger] top[j], ambulances)
                            ==> assignment.distance.bits <= top[j].distance.bits
                    &&& assignment.ambulance.hospital_id == assignment.hospital.hospital_id
                    &&& assignment.ambulance.current_status == crate::availability::AVAILABLE@
                    &&& ambulances.contains(assignment.ambulance)
                },
                Err(DispatchError::NoHospitalsFound) => hospitals.len() == 0,
                Err(DispatchError::NoAvailableAmbulance) => {
                    &&& hospitals.len() > 0
                    &&& forall|j: int|
                        0 <= j < top.len() ==> !can_serve(#[trigger] top[j], ambulances)
                },
                Err(_) => false,
            }
        }),
        nearest(hospitals, CANDIDATE_LIMIT as nat).len() <= CANDIDATE_LIMIT,
        ascending(nearest(hospitals, CANDIDATE_LIMIT as nat)),
{
    let top = nearest(hospitals, CANDIDATE_LIMIT as nat);
    lemma_ranked_is_ascending(hospitals);
    assert(ascending(top)) by {
        let all = ranked(hospitals);
        assert forall|i: int, j: int| 0 <= i <= j < top.len() implies top[i].distance.bits
            <= top[j].distance.bits by {
            assert(top[i] == all[i] && top[j] == all[j]);
        }
    }
    if hospitals.len() > 0 {
        if exists|place: int| is_choice(top, ambulances, place) {
            let place = choose|place: int| is_choice(top, ambulances, place);
            let assignment = assignment_at(top, ambulances, place);
            let wanted = crate::availability::can_be_sent_from(top[place].hospital.hospital_id);
            ambulances.lemma_filter_pred(wanted, 0);
            assert(ambulances.filter(wanted).contains(ambulances.filter(wanted)[0]));
            ambulances.lemma_filter_contains_rev(wanted, assignment.ambulance);
        } else {
            assert forall|j: int| 0 <= j < top.len() implies !can_serve(
                #[trigger] top[j],
                ambulances,
            ) by {
                if can_serve(top[j], ambulances) {
                    lemma_some_choice_exists(top, ambulances, top.len() as int);
                    let place = choose|place: int|
                        is_choice_among(top, ambulances, top.len() as int, place);
                    assert(is_choice(top, ambulances, place));
                }
            }
        }
    }
}

/// Where one of the first `count` candidates can serve, one of them is the one
/// to choose.
proof fn lemma_some_choice_exists(
    candidates: Seq<HospitalWithDistanceView>,
    ambulances: Seq<AmbulanceView>,
    count: int,
)
    requires
        0 <= count <= candidates.len(),
        exists|j: int| 0 <= j < count && can_serve(#[trigger] candidates[j], ambulances),
    ensures
        exists|place: int| is_choice_among(candidates, ambulances, count, place),
    decreases count,
{
    let last = count - 1;
    if exists|j: int| 0 <= j < last && can_serve(#[trigger] candidates[j], ambulances) {
        lemma_some_choice_exists(candidates, ambulances, last);
        let before = choose|place: int| is_choice_among(candidates, ambulances, last, place);
        if can_serve(candidates[last], ambulances) && candidates[last].distance.bits
            < candidates[before].distance.bits {
            assert(is_choice_among(candidates, ambulances, count, last));
        } else {
            assert(is_choice_among(candidates, ambulances, count, before));
        }
    } else {
        assert(is_choice_among(candidates, ambulances, count, last));
    }
}

/// Looks at every candidate in turn and keeps the nearest so far that has an
/// ambulance to send, with the first such ambulance of its store. A candidate
/// replaces the one kept only where it is nearer, and the first is kept only
/// where its distance is finite. `None` where no candidate can serve.
pub fn choose_assignment(candidates: &Vec<HospitalWithDistance>, ambulances: &Vec<Ambulance>) -> (chosen:
    Option<Assignment>)
    ensures
        match chosen {
            Some(assignment) => Some(assignment@) == choice(views(candidates@), views(ambulances@)),
            None => choice(views(candidates@), views(ambulances@)).is_none(),
        },
        chosen.is_none() <==> forall|j: int|
            0 <= j < candidates.len() ==> !can_serve(
                #[trigger] views(candidates@)[j],
                views(ambulances@),
            ),
{
    let ghost list = views(candidates@);
    let ghost fleet = views(ambulances@);
    let mut best: Option<usize> = None;
    let mut best_ambulance: Option<Ambulance> = None;
    let mut k: usize = 0;
    while k < candidates.len()
        invariant
            k <= candidates.len(),
            list == views(candidates@),
            fleet == views(ambulances@),
            match best {
                Some(place) => {
                    &&& is_choice_among(list, fleet, k as int, place as int)
                    &&& best_ambulance matches Some(ambulance)
                    &&& ambulance@ == available(fleet, list[place as int].hospital.hospital_id)[0]
                },
                None => {
                    &&& best_ambulance is None
                    &&& forall|j: int| 0 <= j < k ==> !can_serve(#[trigger] list[j], fleet)
                },
            },
        decreases candidates.len() - k,
    {
        let candidate = &candidates[k];
        assert(list[k as int] == candidate@);
        let ready = find_available_ambulances(ambulances, candidate.hospital.hospital_id.as_str());
        if ready.len() > 0 {
            let nearer = match best {
                Some(place) => candidate.distance.bits < candidates[place].distance.bits,
                None => candidate.distance.bits < INFINITY_BITS,
            };
            if nearer {
                assert(views(ready@)[0] == ready[0]@);
                best = Some(k);
                best_ambulance = Some(ready[0].clone());
            }
        }
        k += 1;
    }
    match best {
        Some(place) => {
            match best_ambulance {
                Some(ambulance) => {
                    let candidate = &candidates[place];
                    assert(list[place as int] == candidate@);
                    proof {
                        assert(is_choice(list, fleet, place as int));
                        let other = choose|other: int| is_choice(list, fleet, other);
                        lemma_choice_is_unique(list, fleet, place as int, other);
                    }
                    Some(
                        Assignment {
                            hospital: candidate.hospital.clone(),
                            ambulance,
                            distance: candidate.distance,
                        },
                    )
                },
                None => None,
            }
        },
        None => None,
    }
}

/// Selects the hospital and the ambulance for a call: ranks the registered
/// hospitals by distance, keeps the five nearest and chooses among them.
///
/// Fails with `NoHospitalsFound` where no hospital is registered, and with
/// `NoAvailableAmbulance` where none of the five nearest can serve: none has
/// both a finite distance and an ambulance whose status is "Available".
pub fn select_assignment(hospitals: Vec<HospitalWithDistance>, ambulances: &Vec<Ambulance>) -> (selected:
    Result<Assignment, DispatchError>)
    ensures
        match selected {
            Ok(assignment) => selection(views(hospitals@), views(ambulances@)) == Ok::<
                AssignmentView,
                DispatchError,
            >(assignment@),
            Err(error) => selection(views(hospitals@), views(ambulances@)) == Err::<
                AssignmentView,
                DispatchError,
            >(error),
        },
{
    if hospitals.len() == 0 {
        return Err(DispatchError::NoHospitalsFound);
    }
    let candidates = find_nearest_hospitals(hospitals, CANDIDATE_LIMIT);
    match choose_assignment(&candidates, ambulances) {
        Some(assignment) => Ok(assignment),
        None => Err(DispatchError::NoAvailableAmbulance),
    }
}

} // verus!
