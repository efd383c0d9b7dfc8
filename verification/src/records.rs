//! Listing the registered hospitals and ambulances.
//!
//! Hospitals and ambulances are kept in a store of the dispatch service. Where
//! that store does not exist, the records that other tooling keeps are read
//! instead: free-form JSON objects, of which those that lack a field the service
//! needs are passed over. A store that cannot be read counts as empty.

use vstd::prelude::*;
use crate::availability::AVAILABLE;
use crate::clock::current_timestamp;
use crate::json::{field, objects_model, text_field, JsonModel, JsonObject, Number};
use crate::model::{
    views, Ambulance, AmbulanceView, AmbulanceWithBlock, AmbulanceWithBlockView, ContactInfo,
    ContactInfoView, Hospital, HospitalLocation, HospitalLocationView, HospitalView,
    HospitalWithBlock, HospitalWithBlockView, Location,
};
use crate::stores::StoreRead;

verus! {

/// The verification status of a hospital whose record states none.
pub const PENDING: &'static str = "pending";

/// The number field `key` of an object.
pub open spec fn number_field(object: Map<Seq<char>, JsonModel>, key: Seq<char>) -> Option<Number> {
    match field(object, key) {
        Some(value) => value.number(),
        None => None,
    }
}

/// The field `key` of an object as a count: a whole number that is not negative,
/// cut to its low 32 bits.
pub open spec fn count_field(object: Map<Seq<char>, JsonModel>, key: Seq<char>) -> Option<u32> {
    match field(object, key) {
        Some(value) => match value.unsigned() {
            Some(n) => Some((n % 0x1_0000_0000) as u32),
            None => None,
        },
        None => None,
    }
}

/// The object field `key` of an object.
pub open spec fn object_field(object: Map<Seq<char>, JsonModel>, key: Seq<char>) -> Option<
    Map<Seq<char>, JsonModel>,
> {
    match field(object, key) {
        Some(value) => value.object(),
        None => None,
    }
}

/// The strings among the items of the array field `key` of an object, in their
/// order. Items that are no strings are passed over.
pub open spec fn texts_field(object: Map<Seq<char>, JsonModel>, key: Seq<char>) -> Option<
    Seq<Seq<char>>,
> {
    match field(object, key) {
        Some(value) => match value.array() {
            Some(items) => Some(items.filter_map(|item: JsonModel| item.text())),
            None => None,
        },
        None => None,
    }
}

/// The string field `key` of an object, or `fallback` where the object has no
/// such string.
pub open spec fn text_or(object: Map<Seq<char>, JsonModel>, key: Seq<char>, fallback: Seq<char>) -> Seq<
    char,
> {
    match text_field(object, key) {
        Some(text) => text,
        None => fallback,
    }
}

/// The location that an object with the number fields `latitude` and `longitude`
/// states.
pub open spec fn location_of(object: Map<Seq<char>, JsonModel>) -> Option<Location> {
    match (number_field(object, "latitude"@), number_field(object, "longitude"@)) {
        (Some(latitude), Some(longitude)) => Some(Location { latitude, longitude }),
        _ => None,
    }
}

/// The place of a hospital that an object states: its coordinates and the five
/// strings of its address, all of which it must have.
pub open spec fn hospital_location_of(object: Map<Seq<char>, JsonModel>) -> Option<
    HospitalLocationView,
> {
    match (
        location_of(object),
        text_field(object, "address"@),
        text_field(object, "city"@),
        text_field(object, "state"@),
        text_field(object, "country"@),
        text_field(object, "postal_code"@),
    ) {
        (Some(point), Some(address), Some(city), Some(state), Some(country), Some(postal_code)) => Some(
            HospitalLocationView {
                latitude: point.latitude,
                longitude: point.longitude,
                address,
                city,
                state,
                country,
                postal_code,
            },
        ),
        _ => None,
    }
}

/// The contact details that an object states: four strings, all of which it must
/// have.
pub open spec fn contact_of(object: Map<Seq<char>, JsonModel>) -> Option<ContactInfoView> {
    match (
        text_field(object, "phone"@),
        text_field(object, "email"@),
        text_field(object, "website"@),
        text_field(object, "emergency_phone"@),
    ) {
        (Some(phone), Some(email), Some(website), Some(emergency_phone)) => Some(
            ContactInfoView { phone, email, website, emergency_phone },
        ),
        _ => None,
    }
}

/// The hospital that a record of other tooling states, read at the time `now`.
///
/// The record must have the strings `id` and `name`, the objects `location` and
/// `contact` with all their fields, the array `services` and the count
/// `emergency_capacity`; else it states no hospital. A missing
/// `verification_status` counts as "pending", a missing `createdAt` as `now`.
pub open spec fn hospital_of(record: Map<Seq<char>, JsonModel>, now: Seq<char>) -> Option<HospitalView> {
    match (
        text_field(record, "id"@),
        text_field(record, "name"@),
        object_field(record, "location"@),
        object_field(record, "contact"@),
        texts_field(record, "services"@),
        count_field(record, "emergency_capacity"@),
    ) {
        (
            Some(hospital_id),
            Some(name),
            Some(location_fields),
            Some(contact_fields),
            Some(services),
            Some(emergency_capacity),
        ) => match (hospital_location_of(location_fields), contact_of(contact_fields)) {
            (Some(location), Some(contact)) => Some(
                HospitalView {
                    hospital_id,
                    name,
                    location,
                    contact,
                    services,
                    emergency_capacity,
                    verification_status: text_or(record, "verification_status"@, PENDING@),
                    timestamp: text_or(record, "createdAt"@, now),
                    admin_id: text_field(record, "adminId"@),
                },
            ),
            _ => None,
        },
        _ => None,
    }
}

/// The current location that the record of an ambulance states: none where the
/// field is missing, `null` or no object with two number coordinates.
pub open spec fn current_location_of(record: Map<Seq<char>, JsonModel>) -> Option<Location> {
    match object_field(record, "current_location"@) {
        Some(fields) => location_of(fields),
        None => None,
    }
}

/// The ambulance that a record of other tooling states, read at the time `now`.
///
/// The record must have the strings `hospital_id`, `id`, `registration_number`
/// and `vehicle_type`, the count `capacity` and the array `equipment`; else it
/// states no ambulance. A missing `current_status` counts as "Available", a
/// missing `updatedAt` as `now`.
pub open spec fn ambulance_of(record: Map<Seq<char>, JsonModel>, now: Seq<char>) -> Option<
    AmbulanceView,
> {
    match (
        text_field(record, "hospital_id"@),
        text_field(record, "id"@),
        text_field(record, "registration_number"@),
        text_field(record, "vehicle_type"@),
        count_field(record, "capacity"@),
        texts_field(record, "equipment"@),
    ) {
        (
            Some(hospital_id),
            Some(ambulance_id),
            Some(registration_number),
            Some(vehicle_type),
            Some(capacity),
            Some(equipment),
        ) => Some(
            AmbulanceView {
                ambulance_id,
                hospital_id,
                registration_number,
                vehicle_type,
                capacity,
                equipment,
                current_status: text_or(record, "current_status"@, AVAILABLE@),
                current_location: current_location_of(record),
                last_updated: text_or(record, "updatedAt"@, now),
            },
        ),
        _ => None,
    }
}

/// Reads a record as a hospital at the time `now`.
pub open spec fn hospital_reader(now: Seq<char>) -> spec_fn(Map<Seq<char>, JsonModel>) -> Option<
    HospitalView,
> {
    |record: Map<Seq<char>, JsonModel>| hospital_of(record, now)
}

/// Reads a record as an ambulance at the time `now`.
pub open spec fn ambulance_reader(now: Seq<char>) -> spec_fn(Map<Seq<char>, JsonModel>) -> Option<
    AmbulanceView,
> {
    |record: Map<Seq<char>, JsonModel>| ambulance_of(record, now)
}

/// The hospitals of a hospital store, without the ledger blocks.
pub open spec fn hospitals_of(store: Seq<HospitalWithBlockView>) -> Seq<HospitalView> {
    Seq::new(store.len(), |i: int| store[i].hospital)
}

/// The ambulances of an ambulance store, without the ledger blocks.
pub open spec fn ambulances_of(store: Seq<AmbulanceWithBlockView>) -> Seq<AmbulanceView> {
    Seq::new(store.len(), |i: int| store[i].ambulance)
}

/// The registered hospitals at the time `now`: those of the hospital store
/// where it exists, else those that the records of other tooling state. A store
/// that cannot be read holds none.
pub open spec fn hospitals_listed(
    store: StoreRead<HospitalWithBlock>,
    records: StoreRead<JsonObject>,
    now: Seq<char>,
) -> Seq<HospitalView> {
    match store {
        StoreRead::Records(list) => hospitals_of(views(list@)),
        StoreRead::Unreadable => Seq::empty(),
        StoreRead::Absent => match records {
            StoreRead::Records(list) => objects_model(list@).filter_map(hospital_reader(now)),
            _ => Seq::empty(),
        },
    }
}

/// The registered ambulances at the time `now`: those of the ambulance store
/// where it exists, else those that the records of other tooling state. A store
/// that cannot be read holds none.
pub open spec fn ambulances_listed(
    store: StoreRead<AmbulanceWithBlock>,
    records: StoreRead<JsonObject>,
    now: Seq<char>,
) -> Seq<AmbulanceView> {
    match store {
        StoreRead::Records(list) => ambulances_of(views(list@)),
        StoreRead::Unreadable => Seq::empty(),
        StoreRead::Absent => match records {
            StoreRead::Records(list) => objects_model(list@).filter_map(ambulance_reader(now)),
            _ => Seq::empty(),
        },
    }
}

fn text_of<'a>(record: &'a JsonObject, key: &str) -> (text: Option<&'a str>)
    ensures
        text.is_some() == text_field(record@, key@).is_some(),
        text matches Some(t) ==> text_field(record@, key@) == Some(t@),
{
    record.get(key)?.as_str()
}

fn number_of(record: &JsonObject, key: &str) -> (number: Option<Number>)
    ensures
        number == number_field(record@, key@),
{
    record.get(key)?.as_number()
}

fn count_of(record: &JsonObject, key: &str) -> (count: Option<u32>)
    ensures
        count == count_field(record@, key@),
{
    let n = record.get(key)?.as_u64()?;
    Some((n % 0x1_0000_0000) as u32)
}

fn object_of<'a>(record: &'a JsonObject, key: &str) -> (object: Option<&'a JsonObject>)
    ensures
        object.is_some() == object_field(record@, key@).is_some(),
        object matches Some(o) ==> object_field(record@, key@) == Some(o@),
{
    record.get(key)?.as_object()
}

fn texts_of(record: &JsonObject, key: &str) -> (texts: Option<Vec<String>>)
    ensures
        texts.is_some() == texts_field(record@, key@).is_some(),
        texts matches Some(list) ==> texts_field(record@, key@) == Some(list.deep_view()),
{
    let items = record.get(key)?.as_array()?;
    let ghost models = record@[key@].array().unwrap();
    let ghost reader = |item: JsonModel| item.text();
    let mut texts: Vec<String> = Vec::new();
    let mut i: usize = 0;
    assert(models.take(0) =~= Seq::empty());
    assert(texts.deep_view() =~= Seq::empty());
    while i < items.len()
        invariant
            i <= items.len(),
            models.len() == items.len(),
            forall|j: int| 0 <= j < items.len() ==> (#[trigger] models[j]) == items[j]@,
            reader == |item: JsonModel| item.text(),
            texts.deep_view() == models.take(i as int).filter_map(reader),
        decreases items.len() - i,
    {
        let ghost before = texts.deep_view();
        proof {
            models.lemma_filter_map_take_succ(reader, i as int);
        }
        match items[i].as_str() {
            Some(text) => {
                texts.push(text.to_owned());
                assert(texts.deep_view() =~= before + seq![text@]);
            },
            None => {
                assert(before + Seq::<Seq<char>>::empty() =~= before);
            },
        }
        i += 1;
    }
    assert(models.take(i as int) =~= models);
    Some(texts)
}

fn text_or_of(record: &JsonObject, key: &str, fallback: &str) -> (text: String)
    ensures
        text@ == text_or(record@, key@, fallback@),
{
    match text_of(record, key) {
        Some(text) => text.to_owned(),
        None => fallback.to_owned(),
    }
}

fn location_in(fields: &JsonObject) -> (location: Option<Location>)
    ensures
        location == location_of(fields@),
{
    let latitude = number_of(fields, "latitude");
    let longitude = number_of(fields, "longitude");
    match (latitude, longitude) {
        (Some(latitude), Some(longitude)) => Some(Location { latitude, longitude }),
        _ => None,
    }
}

fn hospital_location_in(fields: &JsonObject) -> (location: Option<HospitalLocation>)
    ensures
        location.is_some() == hospital_location_of(fields@).is_some(),
        location matches Some(l) ==> hospital_location_of(fields@) == Some(l@),
{
    let point = location_in(fields)?;
    let address = text_of(fields, "address")?;
    let city = text_of(fields, "city")?;
    let state = text_of(fields, "state")?;
    let country = text_of(fields, "country")?;
    let postal_code = text_of(fields, "postal_code")?;
    Some(
        HospitalLocation {
            latitude: point.latitude,
            longitude: point.longitude,
            address: address.to_owned(),
            city: city.to_owned(),
            state: state.to_owned(),
            country: country.to_owned(),
            postal_code: postal_code.to_owned(),
        },
    )
}

fn contact_in(fields: &JsonObject) -> (contact: Option<ContactInfo>)
    ensures
        contact.is_some() == contact_of(fields@).is_some(),
        contact matches Some(c) ==> contact_of(fields@) == Some(c@),
{
    let phone = text_of(fields, "phone")?;
    let email = text_of(fields, "email")?;
    let website = text_of(fields, "website")?;
    let emergency_phone = text_of(fields, "emergency_phone")?;
    Some(
        ContactInfo {
            phone: phone.to_owned(),
            email: email.to_owned(),
            website: website.to_owned(),
            emergency_phone: emergency_phone.to_owned(),
        },
    )
}

/// Reads a record of other tooling as a hospital, at the time `now`. `None`
/// where the record lacks a field that a hospital must have.
pub fn hospital_from_record(record: &JsonObject, now: &str) -> (hospital: Option<Hospital>)
    ensures
        hospital.is_some() == hospital_of(record@, now@).is_some(),
        hospital matches Some(h) ==> hospital_of(record@, now@) == Some(h@),
{
    let hospital_id = text_of(record, "id")?;
    let name = text_of(record, "name")?;
    let location = hospital_location_in(object_of(record, "location")?)?;
    let contact = contact_in(object_of(record, "contact")?)?;
    let services = texts_of(record, "services")?;
    let emergency_capacity = count_of(record, "emergency_capacity")?;
    let admin_id = match text_of(record, "adminId") {
        Some(text) => Some(text.to_owned()),
        None => None,
    };
    Some(
        Hospital {
            hospital_id: hospital_id.to_owned(),
            name: name.to_owned(),
            location,
            contact,
            services,
            emergency_capacity,
            verification_status: text_or_of(record, "verification_status", PENDING),
            timestamp: text_or_of(record, "createdAt", now),
            admin_id,
        },
    )
}

/// Reads a record of other tooling as an ambulance, at the time `now`. `None`
/// where the record lacks a field that an ambulance must have.
pub fn ambulance_from_record(record: &JsonObject, now: &str) -> (ambulance: Option<Ambulance>)
    ensures
        ambulance.is_some() == ambulance_of(record@, now@).is_some(),
        ambulance matches Some(a) ==> ambulance_of(record@, now@) == Some(a@),
{
    let hospital_id = text_of(record, "hospital_id")?;
    let ambulance_id = text_of(record, "id")?;
    let registration_number = text_of(record, "registration_number")?;
    let vehicle_type = text_of(record, "vehicle_type")?;
    let capacity = count_of(record, "capacity")?;
    let equipment = texts_of(record, "equipment")?;
    let current_location = match object_of(record, "current_location") {
        Some(fields) => location_in(fields),
        None => None,
    };
    Some(
        Ambulance {
            ambulance_id: ambulance_id.to_owned(),
            hospital_id: hospital_id.to_owned(),
            registration_number: registration_number.to_owned(),
            vehicle_type: vehicle_type.to_owned(),
            capacity,
            equipment,
            current_status: text_or_of(record, "current_status", AVAILABLE),
            current_location,
            last_updated: text_or_of(record, "updatedAt", now),
        },
    )
}

/// The hospitals that the records of other tooling state, in the order of the
/// records.
pub fn hospitals_from_records(records: &Vec<JsonObject>, now: &str) -> (hospitals: Vec<Hospital>)
    ensures
        views(hospitals@) == objects_model(records@).filter_map(hospital_reader(now@)),
{
    let ghost models = objects_model(records@);
    let ghost reader = hospital_reader(now@);
    let mut hospitals: Vec<Hospital> = Vec::new();
    let mut i: usize = 0;
    assert(models.take(0) =~= Seq::empty());
    assert(views(hospitals@) =~= Seq::empty());
    while i < records.len()
        invariant
            i <= records.len(),
            models == objects_model(records@),
            reader == hospital_reader(now@),
            views(hospitals@) == models.take(i as int).filter_map(reader),
        decreases records.len() - i,
    {
        let ghost before = views(hospitals@);
        proof {
            models.lemma_filter_map_take_succ(reader, i as int);
        }
        match hospital_from_record(&records[i], now) {
            Some(hospital) => {
                let ghost read = hospital@;
                hospitals.push(hospital);
                assert(views(hospitals@) =~= before + seq![read]);
            },
            None => {
                assert(before + Seq::<HospitalView>::empty() =~= before);
            },
        }
        i += 1;
    }
    assert(models.take(i as int) =~= models);
    hospitals
}

/// The ambulances that the records of other tooling state, in the order of the
/// records.
pub fn ambulances_from_records(records: &Vec<JsonObject>, now: &str) -> (ambulances: Vec<Ambulance>)
    ensures
        views(ambulances@) == objects_model(records@).filter_map(ambulance_reader(now@)),
{
    let ghost models = objects_model(records@);
    let ghost reader = ambulance_reader(now@);
    let mut ambulances: Vec<Ambulance> = Vec::new();
    let mut i: usize = 0;
    assert(models.take(0) =~= Seq::empty());
    assert(views(ambulances@) =~= Seq::empty());
    while i < records.len()
        invariant
            i <= records.len(),
            models == objects_model(records@),
            reader == ambulance_reader(now@),
            views(ambulances@) == models.take(i as int).filter_map(reader),
        decreases records.len() - i,
    {
        let ghost before = views(ambulances@);
        proof {
            models.lemma_filter_map_take_succ(reader, i as int);
        }
        match ambulance_from_record(&records[i], now) {
            Some(ambulance) => {
                let ghost read = ambulance@;
                ambulances.push(ambulance);
                assert(views(ambulances@) =~= before + seq![read]);
            },
            None => {
                assert(before + Seq::<AmbulanceView>::empty() =~= before);
            },
        }
        i += 1;
    }
    assert(models.take(i as int) =~= models);
    ambulances
}

/// The hospitals that a hospital store holds, in its order.
pub fn hospitals_from_store(store: &Vec<HospitalWithBlock>) -> (hospitals: Vec<Hospital>)
    ensures
        views(hospitals@) == hospitals_of(views(store@)),
{
    let mut hospitals: Vec<Hospital> = Vec::new();
    let mut i: usize = 0;
    while i < store.len()
        invariant
            i <= store.len(),
            hospitals.len() == i,
            forall|j: int| 0 <= j < i ==> (#[trigger] hospitals[j])@ == store[j]@.hospital,
        decreases store.len() - i,
    {
        hospitals.push(store[i].hospital.clone());
        i += 1;
    }
    assert(views(hospitals@) =~= hospitals_of(views(store@)));
    hospitals
}

/// The ambulances that an ambulance store holds, in its order.
pub fn ambulances_from_store(store: &Vec<AmbulanceWithBlock>) -> (ambulances: Vec<Ambulance>)
    ensures
        views(ambulances@) == ambulances_of(views(store@)),
{
    let mut ambulances: Vec<Ambulance> = Vec::new();
    let mut i: usize = 0;
    while i < store.len()
        invariant
            i <= store.len(),
            ambulances.len() == i,
            forall|j: int| 0 <= j < i ==> (#[trigger] ambulances[j])@ == store[j]@.ambulance,
        decreases store.len() - i,
    {
        ambulances.push(store[i].ambulance.clone());
        i += 1;
    }
    assert(views(ambulances@) =~= ambulances_of(views(store@)));
    ambulances
}

/// Lists the registered hospitals as they are read at the time `now`: those of
/// the hospital store where there is one, else those that the records of other
/// tooling state. A store that is missing or cannot be read gives no hospital,
/// and no error.
pub fn registered_hospitals_at(
    store: &StoreRead<HospitalWithBlock>,
    records: &StoreRead<JsonObject>,
    now: &str,
) -> (hospitals: Vec<Hospital>)
    ensures
        views(hospitals@) == hospitals_listed(*store, *records, now@),
{
    match store {
        StoreRead::Records(list) => hospitals_from_store(list),
        StoreRead::Unreadable => {
            let none: Vec<Hospital> = Vec::new();
            assert(views(none@) =~= Seq::empty());
            none
        },
        StoreRead::Absent => match records {
            StoreRead::Records(list) => hospitals_from_records(list, now),
            _ => {
                let none: Vec<Hospital> = Vec::new();
                assert(views(none@) =~= Seq::empty());
                none
            },
        },
    }
}

/// Lists the registered ambulances as they are read at the time `now`: those of
/// the ambulance store where there is one, else those that the records of other
/// tooling state. A store that is missing or cannot be read gives no ambulance,
/// and no error.
pub fn registered_ambulances_at(
    store: &StoreRead<AmbulanceWithBlock>,
    records: &StoreRead<JsonObject>,
    now: &str,
) -> (ambulances: Vec<Ambulance>)
    ensures
        views(ambulances@) == ambulances_listed(*store, *records, now@),
{
    match store {
        StoreRead::Records(list) => ambulances_from_store(list),
        StoreRead::Unreadable => {
            let none: Vec<Ambulance> = Vec::new();
            assert(views(none@) =~= Seq::empty());
            none
        },
        StoreRead::Absent => match records {
            StoreRead::Records(list) => ambulances_from_records(list, now),
            _ => {
                let none: Vec<Ambulance> = Vec::new();
                assert(views(none@) =~= Seq::empty());
                none
            },
        },
    }
}

/// Lists the registered hospitals as [`registered_hospitals_at`] does, read at
/// the present time. The time matters only to records of other tooling that
/// state no `createdAt`.
pub fn registered_hospitals(store: &StoreRead<HospitalWithBlock>, records: &StoreRead<JsonObject>) -> (hospitals:
    Vec<Hospital>)
    ensures
        exists|now: Seq<char>| views(hospitals@) == hospitals_listed(*store, *records, now),
        store is Records ==> views(hospitals@) == hospitals_of(views(store->Records_0@)),
        !(store is Records) && !(records is Records) ==> hospitals.len() == 0,
{
    let now = current_timestamp();
    let hospitals = registered_hospitals_at(store, records, now.as_str());
    assert(views(hospitals@) == hospitals_listed(*store, *records, now@));
    hospitals
}

/// Lists the registered ambulances as [`registered_ambulances_at`] does, read at
/// the present time. The time matters only to records of other tooling that
/// state no `updatedAt`.
pub fn registered_ambulances(store: &StoreRead<AmbulanceWithBlock>, records: &StoreRead<JsonObject>) -> (ambulances:
    Vec<Ambulance>)
    ensures
        exists|now: Seq<char>| views(ambulances@) == ambulances_listed(*store, *records, now),
        store is Records ==> views(ambulances@) == ambulances_of(views(store->Records_0@)),
        !(store is Records) && !(records is Records) ==> ambulances.len() == 0,
{
    let now = current_timestamp();
    let ambulances = registered_ambulances_at(store, records, now.as_str());
    assert(views(ambulances@) == ambulances_listed(*store, *records, now@));
    ambulances
}

} // verus!
