//! The stores of the dispatch service, held in memory.
//!
//! A store is a list of records. A record is found by its identifier, and the
//! first record with an identifier is the record of that identifier. Reading and
//! writing the files behind the stores is not done here: what a read gave is
//! handed in as a [`StoreRead`], and the lists are handed back to be written.

use vstd::prelude::*;
use crate::model::{
    views, Ambulance, AmbulanceView, AmbulanceWithBlock, AmbulanceWithBlockView, EmergencyResponse,
    EmergencyResponseView, Hospital, HospitalView, HospitalWithBlock, HospitalWithBlockView,
};
use crate::text::text_eq;

verus! {

/// What reading a store gave.
#[derive(Debug)]
pub enum StoreRead<T> {
    /// There is no such store.
    Absent,
    /// The store is there, but what it holds cannot be read as records.
    Unreadable,
    /// The records of the store, in its order.
    Records(Vec<T>),
}

impl<T> StoreRead<T> {
    /// The records that were read. A store that is missing or cannot be read
    /// counts as an empty one: that is no error.
    pub fn records_or_empty(self) -> (records: Vec<T>)
        ensures
            records@ == match self {
                StoreRead::Records(list) => list@,
                _ => Seq::<T>::empty(),
            },
    {
        match self {
            StoreRead::Records(list) => list,
            _ => Vec::new(),
        }
    }

    /// The records of a store that is kept only where other tooling has made it:
    /// `None` where there is no such store, and the empty list where it cannot be
    /// read.
    pub fn existing_records(self) -> (records: Option<Vec<T>>)
        ensures
            match self {
                StoreRead::Absent => records.is_none(),
                StoreRead::Unreadable => records.is_some() && records.unwrap()@ == Seq::<T>::empty(),
                StoreRead::Records(list) => records.is_some() && records.unwrap()@ == list@,
            },
    {
        match self {
            StoreRead::Absent => None,
            StoreRead::Unreadable => Some(Vec::new()),
            StoreRead::Records(list) => Some(list),
        }
    }
}

/// The place of the first record of `list` that is `wanted`; the length of the
/// list where none is.
pub open spec fn first_place<T>(list: Seq<T>, wanted: spec_fn(T) -> bool) -> int
    decreases list.len(),
{
    if list.len() == 0 || wanted(list[0]) {
        0
    } else {
        1 + first_place(list.drop_first(), wanted)
    }
}

/// The first record of `list` that is `wanted`.
pub open spec fn first_wanted<T>(list: Seq<T>, wanted: spec_fn(T) -> bool) -> Option<T> {
    let place = first_place(list, wanted);
    if place < list.len() {
        Some(list[place])
    } else {
        None
    }
}

/// The list with `entry` in the place of the first record that is `wanted`, or at
/// its end where none is.
pub open spec fn put<T>(list: Seq<T>, wanted: spec_fn(T) -> bool, entry: T) -> Seq<T> {
    let place = first_place(list, wanted);
    if place < list.len() {
        list.update(place, entry)
    } else {
        list.push(entry)
    }
}

/// What `first_place` is: nothing before it is wanted, and the record at it is.
pub proof fn lemma_first_place<T>(list: Seq<T>, wanted: spec_fn(T) -> bool)
    ensures
        0 <= first_place(list, wanted) <= list.len(),
        forall|i: int| 0 <= i < first_place(list, wanted) ==> !wanted(#[trigger] list[i]),
        first_place(list, wanted) < list.len() ==> wanted(list[first_place(list, wanted)]),
    decreases list.len(),
{
    if list.len() > 0 && !wanted(list[0]) {
        let rest = list.drop_first();
        lemma_first_place(rest, wanted);
        assert forall|i: int| 0 <= i < first_place(list, wanted) implies !wanted(
            #[trigger] list[i],
        ) by {
            if i > 0 {
                assert(list[i] == rest[i - 1]);
            }
        }
    }
}

/// A place with nothing wanted before it, which holds a wanted record or is the
/// end of the list, is the first place.
pub proof fn lemma_is_first_place<T>(list: Seq<T>, wanted: spec_fn(T) -> bool, place: int)
    requires
        0 <= place <= list.len(),
        forall|i: int| 0 <= i < place ==> !wanted(#[trigger] list[i]),
        place < list.len() ==> wanted(list[place]),
    ensures
        first_place(list, wanted) == place,
{
    lemma_first_place(list, wanted);
    let first = first_place(list, wanted);
    if first < place {
        assert(!wanted(list[first]));
    } else if place < first {
        assert(!wanted(list[place]));
    }
}

/// After `put` the first wanted record is the one that was put, whatever the
/// list held, as long as that record is itself wanted.
pub proof fn lemma_put_then_find<T>(list: Seq<T>, wanted: spec_fn(T) -> bool, entry: T)
    requires
        wanted(entry),
    ensures
        first_wanted(put(list, wanted, entry), wanted) == Some(entry),
        put(list, wanted, entry).len() == if first_place(list, wanted) < list.len() {
            list.len()
        } else {
            list.len() + 1
        },
{
    lemma_first_place(list, wanted);
    let place = first_place(list, wanted);
    let after = put(list, wanted, entry);
    assert forall|i: int| 0 <= i < place implies !wanted(#[trigger] after[i]) by {
        assert(after[i] == list[i]);
    }
    lemma_is_first_place(after, wanted, place);
}

/// Whether a stored ambulance has the identifier `ambulance_id`.
pub open spec fn is_ambulance(ambulance_id: Seq<char>) -> spec_fn(AmbulanceWithBlockView) -> bool {
    |stored: AmbulanceWithBlockView| stored.ambulance.ambulance_id == ambulance_id
}

/// Whether a stored hospital has the identifier `hospital_id`.
pub open spec fn is_hospital(hospital_id: Seq<char>) -> spec_fn(HospitalWithBlockView) -> bool {
    |stored: HospitalWithBlockView| stored.hospital.hospital_id == hospital_id
}

/// Whether a response answers the request `request_id`.
pub open spec fn answers(request_id: Seq<char>) -> spec_fn(EmergencyResponseView) -> bool {
    |response: EmergencyResponseView| response.request_id == request_id
}

/// An ambulance as it is stored after the ledger block `block_id` changed it.
pub open spec fn stored_ambulance(ambulance: AmbulanceView, block_id: Seq<char>) -> AmbulanceWithBlockView {
    AmbulanceWithBlockView {
        ambulance: ambulance,
        block_id: block_id,
        timestamp: ambulance.last_updated,
    }
}

/// A hospital as it is stored after the ledger block `block_id` registered it.
pub open spec fn stored_hospital(hospital: HospitalView, block_id: Seq<char>) -> HospitalWithBlockView {
    HospitalWithBlockView { hospital: hospital, block_id: block_id, timestamp: hospital.timestamp }
}

fn place_of_hospital(store: &Vec<HospitalWithBlock>, hospital_id: &str) -> (place: usize)
    ensures
        place == first_place(views(store@), is_hospital(hospital_id@)),
        place <= store.len(),
{
    let ghost wanted = is_hospital(hospital_id@);
    let mut place: usize = 0;
    while place < store.len() && !text_eq(store[place].hospital.hospital_id.as_str(), hospital_id)
        invariant
            place <= store.len(),
            wanted == is_hospital(hospital_id@),
            forall|i: int| 0 <= i < place ==> !wanted(#[trigger] views(store@)[i]),
        decreases store.len() - place,
    {
        place += 1;
    }
    proof {
        lemma_is_first_place(views(store@), wanted, place as int);
    }
    place
}

fn place_of_ambulance(store: &Vec<AmbulanceWithBlock>, ambulance_id: &str) -> (place: usize)
    ensures
        place == first_place(views(store@), is_ambulance(ambulance_id@)),
        place <= store.len(),
{
    let ghost wanted = is_ambulance(ambulance_id@);
    let mut place: usize = 0;
    while place < store.len() && !text_eq(store[place].ambulance.ambulance_id.as_str(), ambulance_id)
        invariant
            place <= store.len(),
            wanted == is_ambulance(ambulance_id@),
            forall|i: int| 0 <= i < place ==> !wanted(#[trigger] views(store@)[i]),
        decreases store.len() - place,
    {
        place += 1;
    }
    proof {
        lemma_is_first_place(views(store@), wanted, place as int);
    }
    place
}

fn place_of_response(store: &Vec<EmergencyResponse>, request_id: &str) -> (place: usize)
    ensures
        place == first_place(views(store@), answers(request_id@)),
        place <= store.len(),
{
    let ghost wanted = answers(request_id@);
    let mut place: usize = 0;
    while place < store.len() && !text_eq(store[place].request_id.as_str(), request_id)
        invariant
            place <= store.len(),
            wanted == answers(request_id@),
            forall|i: int| 0 <= i < place ==> !wanted(#[trigger] views(store@)[i]),
        decreases store.len() - place,
    {
        place += 1;
    }
    proof {
        lemma_is_first_place(views(store@), wanted, place as int);
    }
    place
}

/// Records a hospital in the hospital store, with the ledger block that
/// registered it: the record takes the place of the first record of the same
/// hospital, or comes last where the store has none. The other records stay as
/// they are.
pub fn put_hospital(store: &mut Vec<HospitalWithBlock>, hospital: &Hospital, block_id: &str)
    ensures
        views(final(store)@) == put(
            views(old(store)@),
            is_hospital(hospital@.hospital_id),
            stored_hospital(hospital@, block_id@),
        ),
{
    let ghost before = views(store@);
    let stored = HospitalWithBlock {
        hospital: hospital.clone(),
        block_id: block_id.to_owned(),
        timestamp: hospital.timestamp.clone(),
    };
    let place = place_of_hospital(store, hospital.hospital_id.as_str());
    if place < store.len() {
        store.set(place, stored);
        assert(views(store@) =~= before.update(place as int, stored@));
    } else {
        store.push(stored);
        assert(views(store@) =~= before.push(stored@));
    }
}

/// Records the new state of an ambulance in the ambulance store, with the ledger
/// block that changed it: the record takes the place of the first record of the
/// same ambulance, or comes last where the store has none. The other records stay
/// as they are.
pub fn put_ambulance(store: &mut Vec<AmbulanceWithBlock>, ambulance: &Ambulance, block_id: &str)
    ensures
        views(final(store)@) == put(
            views(old(store)@),
            is_ambulance(ambulance@.ambulance_id),
            stored_ambulance(ambulance@, block_id@),
        ),
{
    let ghost before = views(store@);
    let stored = AmbulanceWithBlock {
        ambulance: ambulance.clone(),
        block_id: block_id.to_owned(),
        timestamp: ambulance.last_updated.clone(),
    };
    let place = place_of_ambulance(store, ambulance.ambulance_id.as_str());
    if place < store.len() {
        store.set(place, stored);
        assert(views(store@) =~= before.update(place as int, stored@));
    } else {
        store.push(stored);
        assert(views(store@) =~= before.push(stored@));
    }
}

/// Records a response in the response store: it takes the place of the first
/// response to the same request, or comes last where the store has none. The
/// other records stay as they are.
pub fn put_response(store: &mut Vec<EmergencyResponse>, response: &EmergencyResponse)
    ensures
        views(final(store)@) == put(views(old(store)@), answers(response@.request_id), response@),
{
    let ghost before = views(store@);
    let copy = response.clone();
    let place = place_of_response(store, response.request_id.as_str());
    if place < store.len() {
        store.set(place, copy);
        assert(views(store@) =~= before.update(place as int, copy@));
    } else {
        store.push(copy);
        assert(views(store@) =~= before.push(copy@));
    }
}

/// The response to the request `request_id` that the store holds.
pub fn get_response<'a>(store: &'a Vec<EmergencyResponse>, request_id: &str) -> (found: Option<
    &'a EmergencyResponse,
>)
    ensures
        match found {
            Some(response) => first_wanted(views(store@), answers(request_id@)) == Some(response@),
            None => first_wanted(views(store@), answers(request_id@)).is_none(),
        },
{
    let place = place_of_response(store, request_id);
    if place < store.len() {
        assert(views(store@)[place as int] == store[place as int]@);
        Some(&store[place])
    } else {
        None
    }
}

} // verus!
