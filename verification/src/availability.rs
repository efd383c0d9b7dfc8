//! Which ambulances of a hospital can be sent.

use vstd::prelude::*;
use crate::model::{views, Ambulance, AmbulanceView};
use crate::text::text_eq;

verus! {

/// The status of an ambulance that can be sent.
pub const AVAILABLE: &'static str = "Available";

/// The status of an ambulance that is on its way.
pub const DISPATCHED: &'static str = "Dispatched";

/// Whether an ambulance belongs to the hospital `hospital_id` and can be sent.
pub open spec fn can_be_sent_from(hospital_id: Seq<char>) -> spec_fn(AmbulanceView) -> bool {
    |ambulance: AmbulanceView|
        ambulance.hospital_id == hospital_id && ambulance.current_status == AVAILABLE@
}

/// The ambulances of the hospital `hospital_id` that can be sent, in the order
/// of the store.
pub open spec fn available(ambulances: Seq<AmbulanceView>, hospital_id: Seq<char>) -> Seq<
    AmbulanceView,
> {
    ambulances.filter(can_be_sent_from(hospital_id))
}

/// The ambulances of the hospital `hospital_id` whose status is "Available": all
/// of them, no other, in the order of the store. None is no error: the list is
/// then empty.
pub fn find_available_ambulances(ambulances: &Vec<Ambulance>, hospital_id: &str) -> (found: Vec<
    Ambulance,
>)
    ensures
        views(found@) == available(views(ambulances@), hospital_id@),
        forall|i: int|
            0 <= i < found.len() ==> (#[trigger] found[i])@.hospital_id == hospital_id@
                && found[i]@.current_status == AVAILABLE@,
        forall|i: int|
            0 <= i < ambulances.len() && (#[trigger] ambulances[i])@.hospital_id == hospital_id@
                && ambulances[i]@.current_status == AVAILABLE@ ==> views(found@).contains(
                ambulances[i]@,
            ),
        forall|i: int|
            0 <= i < found.len() ==> views(ambulances@).contains((#[trigger] found[i])@),
{
    let ghost wanted = can_be_sent_from(hospital_id@);
    let ghost all = views(ambulances@);
    let mut found: Vec<Ambulance> = Vec::new();
    let mut i: usize = 0;
    assert(all.take(0) =~= Seq::empty());
    assert(views(found@) =~= Seq::empty());
    proof {
        Seq::<AmbulanceView>::empty().lemma_filter_len(wanted);
    }
    while i < ambulances.len()
        invariant
            i <= ambulances.len(),
            all == views(ambulances@),
            wanted == can_be_sent_from(hospital_id@),
            views(found@) == all.take(i as int).filter(wanted),
        decreases ambulances.len() - i,
    {
        let ambulance = &ambulances[i];
        let ghost before = views(found@);
        proof {
            assert(all.take(i + 1) =~= all.take(i as int).push(ambulance@));
            all.take(i as int).lemma_filter_push(ambulance@, wanted);
        }
        if text_eq(ambulance.hospital_id.as_str(), hospital_id) && text_eq(
            ambulance.current_status.as_str(),
            AVAILABLE,
        ) {
            found.push(ambulance.clone());
            assert(views(found@) =~= before.push(ambulance@));
        }
        i += 1;
    }
    proof {
        assert(all.take(i as int) =~= all);
        assert forall|k: int| 0 <= k < found.len() implies (#[trigger] found[k])@.hospital_id
            == hospital_id@ && found[k]@.current_status == AVAILABLE@ && all.contains(found[k]@) by {
            assert(views(found@)[k] == found[k]@);
            all.lemma_filter_pred(wanted, k);
            assert(all.filter(wanted).contains(all.filter(wanted)[k]));
            all.lemma_filter_contains_rev(wanted, found[k]@);
        }
        assert forall|k: int|
            0 <= k < ambulances.len() && (#[trigger] ambulances[k])@.hospital_id == hospital_id@
                && ambulances[k]@.current_status == AVAILABLE@ implies views(found@).contains(
            ambulances[k]@,
        ) by {
            assert(all[k] == ambulances[k]@);
            all.lemma_filter_contains(wanted, k);
        }
    }
    found
}

} // verus!
