//! The stores that other tooling keeps of ambulances, responses and requests.
//!
//! These stores hold free-form JSON objects in a shape of their own. After an
//! assignment the dispatch service writes into them what it has changed, field by
//! field, and leaves every other field and every other record as it is. A store
//! of this kind that does not exist is not made, with one exception that
//! [`update_server_emergency_response`] describes.

use vstd::prelude::*;
use vstd::string::StringExecFns;
use crate::json::{has_text, objects_model, texts_model, JsonModel, JsonObject, JsonValue, Number};
use crate::model::{Ambulance, AmbulanceView, EmergencyResponse, EmergencyResponseView, Location};
use crate::stores::{first_place, lemma_is_first_place};

verus! {

/// The status of a request that has been answered with an assignment.
pub const ASSIGNED: &'static str = "Assigned";

/// What a store of this kind holds, where there is one.
pub open spec fn mirror_model(store: Option<Vec<JsonObject>>) -> Option<Seq<Map<Seq<char>, JsonModel>>> {
    match store {
        Some(records) => Some(objects_model(records@)),
        None => None,
    }
}

/// A location as an object with the fields `latitude` and `longitude`.
pub open spec fn location_model(location: Location) -> JsonModel {
    JsonModel::Object(
        Map::<Seq<char>, JsonModel>::empty().insert(
            "latitude"@,
            JsonModel::Number(location.latitude),
        ).insert("longitude"@, JsonModel::Number(location.longitude)),
    )
}

/// The record of an ambulance with its status, the time of its last update and,
/// where the ambulance has one, its location set to those of `ambulance`.
pub open spec fn ambulance_amended(
    record: Map<Seq<char>, JsonModel>,
    ambulance: AmbulanceView,
) -> Map<Seq<char>, JsonModel> {
    let changed = record.insert("current_status"@, JsonModel::Text(ambulance.current_status)).insert(
        "updatedAt"@,
        JsonModel::Text(ambulance.last_updated),
    );
    match ambulance.current_location {
        Some(location) => changed.insert("current_location"@, location_model(location)),
        None => changed,
    }
}

/// The record that is made for an ambulance which the store does not hold yet.
pub open spec fn ambulance_record(ambulance: AmbulanceView) -> Map<Seq<char>, JsonModel> {
    Map::<Seq<char>, JsonModel>::empty().insert("id"@, JsonModel::Text(ambulance.ambulance_id)).insert(
        "hospital_id"@,
        JsonModel::Text(ambulance.hospital_id),
    ).insert("registration_number"@, JsonModel::Text(ambulance.registration_number)).insert(
        "vehicle_type"@,
        JsonModel::Text(ambulance.vehicle_type),
    ).insert("capacity"@, JsonModel::Number(Number::Unsigned(ambulance.capacity as u64))).insert(
        "current_status"@,
        JsonModel::Text(ambulance.current_status),
    ).insert("equipment"@, texts_model(ambulance.equipment)).insert(
        "current_location"@,
        match ambulance.current_location {
            Some(location) => location_model(location),
            None => JsonModel::Null,
        },
    ).insert("createdAt"@, JsonModel::Text(ambulance.last_updated)).insert(
        "updatedAt"@,
        JsonModel::Text(ambulance.last_updated),
    )
}

/// The ambulance records after the state of `ambulance` has been written into
/// them: into the first record whose `id` is that of the ambulance, or as a new
/// record at the end where there is none.
pub open spec fn ambulances_mirrored(
    records: Seq<Map<Seq<char>, JsonModel>>,
    ambulance: AmbulanceView,
) -> Seq<Map<Seq<char>, JsonModel>> {
    let place = first_place(records, has_text("id"@, ambulance.ambulance_id));
    if place < records.len() {
        records.update(place, ambulance_amended(records[place], ambulance))
    } else {
        records.push(ambulance_record(ambulance))
    }
}

/// The record of a response with the fields that an assignment decides set to
/// those of `response`.
pub open spec fn response_amended(
    record: Map<Seq<char>, JsonModel>,
    response: EmergencyResponseView,
) -> Map<Seq<char>, JsonModel> {
    record.insert("hospital_id"@, JsonModel::Text(response.hospital_id)).insert(
        "hospital_name"@,
        JsonModel::Text(response.hospital_name),
    ).insert("ambulance_id"@, JsonModel::Text(response.ambulance_id)).insert(
        "estimated_arrival_time"@,
        JsonModel::Number(Number::Unsigned(response.estimated_arrival_time as u64)),
    ).insert("distance"@, JsonModel::Number(Number::Real(response.distance.bits))).insert(
        "status"@,
        JsonModel::Text(response.status),
    ).insert("blockchainTransactionId"@, JsonModel::Text(response.blockchain_tx_id)).insert(
        "blockchainStatus"@,
        JsonModel::Text("Confirmed"@),
    ).insert("updatedAt"@, JsonModel::Text(response.timestamp))
}

/// The record that is made for a response which the store does not hold yet,
/// under the identifier `id`.
pub open spec fn response_record(id: Seq<char>, response: EmergencyResponseView) -> Map<
    Seq<char>,
    JsonModel,
> {
    response_amended(
        Map::<Seq<char>, JsonModel>::empty().insert("id"@, JsonModel::Text(id)).insert(
            "request_id"@,
            JsonModel::Text(response.request_id),
        ).insert("createdAt"@, JsonModel::Text(response.timestamp)),
        response,
    )
}

/// The response records after `response` has been written into them. A store
/// that did not exist holds the one record, whose `id` is that of the request.
/// In a store that existed the response is written into the first record with
/// its `request_id`, or comes last as a new record whose `id` is `resp_` and the
/// identifier of the request.
pub open spec fn responses_mirrored(
    records: Option<Seq<Map<Seq<char>, JsonModel>>>,
    response: EmergencyResponseView,
) -> Seq<Map<Seq<char>, JsonModel>> {
    match records {
        None => seq![response_record(response.request_id, response)],
        Some(list) => {
            let place = first_place(list, has_text("request_id"@, response.request_id));
            if place < list.len() {
                list.update(place, response_amended(list[place], response))
            } else {
                list.push(response_record("resp_"@ + response.request_id, response))
            }
        },
    }
}

/// The request records after the request `request_id` has been given the status
/// `status` at the time `now`: the first record whose `id` is that of the request
/// has its `status` and `updatedAt` set. Where there is no such record nothing
/// changes.
pub open spec fn requests_marked(
    records: Seq<Map<Seq<char>, JsonModel>>,
    request_id: Seq<char>,
    status: Seq<char>,
    now: Seq<char>,
) -> Seq<Map<Seq<char>, JsonModel>> {
    let place = first_place(records, has_text("id"@, request_id));
    if place < records.len() {
        records.update(
            place,
            records[place].insert("status"@, JsonModel::Text(status)).insert(
                "updatedAt"@,
                JsonModel::Text(now),
            ),
        )
    } else {
        records
    }
}

/// The request store after the request `request_id` has been marked, where there
/// is such a store.
pub open spec fn request_store_marked(
    store: Option<Seq<Map<Seq<char>, JsonModel>>>,
    request_id: Seq<char>,
    status: Seq<char>,
    now: Seq<char>,
) -> Option<Seq<Map<Seq<char>, JsonModel>>> {
    match store {
        Some(records) => Some(requests_marked(records, request_id, status, now)),
        None => None,
    }
}

fn place_of_record(records: &Vec<JsonObject>, key: &str, wanted: &str) -> (place: usize)
    ensures
        place == first_place(objects_model(records@), has_text(key@, wanted@)),
        place <= records.len(),
{
    let ghost sought = has_text(key@, wanted@);
    let mut place: usize = 0;
    while place < records.len() && !records[place].has_text(key, wanted)
        invariant
            place <= records.len(),
            sought == has_text(key@, wanted@),
            forall|i: int| 0 <= i < place ==> !sought(#[trigger] objects_model(records@)[i]),
        decreases records.len() - place,
    {
        place += 1;
    }
    proof {
        lemma_is_first_place(objects_model(records@), sought, place as int);
    }
    place
}

fn location_value(location: &Location) -> (value: JsonValue)
    ensures
        value@ == location_model(*location),
{
    let mut fields = JsonObject::new();
    fields.insert("latitude", JsonValue::Number(location.latitude));
    fields.insert("longitude", JsonValue::Number(location.longitude));
    JsonValue::Object(fields)
}

fn new_ambulance_record(ambulance: &Ambulance) -> (record: JsonObject)
    ensures
        record@ == ambulance_record(ambulance@),
{
    let mut record = JsonObject::new();
    record.insert("id", JsonValue::from_text(ambulance.ambulance_id.as_str()));
    record.insert("hospital_id", JsonValue::from_text(ambulance.hospital_id.as_str()));
    record.insert("registration_number", JsonValue::from_text(ambulance.registration_number.as_str()));
    record.insert("vehicle_type", JsonValue::from_text(ambulance.vehicle_type.as_str()));
    record.insert("capacity", JsonValue::Number(Number::Unsigned(ambulance.capacity as u64)));
    record.insert("current_status", JsonValue::from_text(ambulance.current_status.as_str()));
    record.insert("equipment", JsonValue::from_texts(&ambulance.equipment));
    let place = match &ambulance.current_location {
        Some(location) => location_value(location),
        None => JsonValue::Null,
    };
    record.insert("current_location", place);
    record.insert("createdAt", JsonValue::from_text(ambulance.last_updated.as_str()));
    record.insert("updatedAt", JsonValue::from_text(ambulance.last_updated.as_str()));
    record
}

fn amend_ambulance_record(record: &mut JsonObject, ambulance: &Ambulance)
    ensures
        final(record)@ == ambulance_amended(old(record)@, ambulance@),
{
    record.insert("current_status", JsonValue::from_text(ambulance.current_status.as_str()));
    record.insert("updatedAt", JsonValue::from_text(ambulance.last_updated.as_str()));
    match &ambulance.current_location {
        Some(location) => {
            record.insert("current_location", location_value(location));
        },
        None => {},
    }
}

/// Writes the state of an ambulance into the ambulance records of other tooling.
///
/// The first record whose `id` is that of the ambulance gets its status, the time
/// of its last update and, where the ambulance has a location, its location;
/// its other fields stay. Where no record has that `id`, a full record of the
/// ambulance comes last. The other records stay as they are.
pub fn update_server_ambulance_status(records: &mut Vec<JsonObject>, ambulance: &Ambulance)
    ensures
        objects_model(final(records)@) == ambulances_mirrored(objects_model(old(records)@), ambulance@),
{
    let ghost before = objects_model(records@);
    let place = place_of_record(records, "id", ambulance.ambulance_id.as_str());
    if place < records.len() {
        let mut record = records.remove(place);
        assert(record@ == before[place as int]);
        amend_ambulance_record(&mut record, ambulance);
        let ghost amended = record@;
        records.insert(place, record);
        assert(objects_model(records@) =~= before.update(place as int, amended));
    } else {
        let record = new_ambulance_record(ambulance);
        let ghost made = record@;
        records.push(record);
        assert(objects_model(records@) =~= before.push(made));
    }
}

fn amend_response_record(record: &mut JsonObject, response: &EmergencyResponse)
    ensures
        final(record)@ == response_amended(old(record)@, response@),
{
    record.insert("hospital_id", JsonValue::from_text(response.hospital_id.as_str()));
    record.insert("hospital_name", JsonValue::from_text(response.hospital_name.as_str()));
    record.insert("ambulance_id", JsonValue::from_text(response.ambulance_id.as_str()));
    record.insert(
        "estimated_arrival_time",
        JsonValue::Number(Number::Unsigned(response.estimated_arrival_time as u64)),
    );
    record.insert("distance", JsonValue::Number(Number::Real(response.distance.bits)));
    record.insert("status", JsonValue::from_text(response.status.as_str()));
    record.insert("blockchainTransactionId", JsonValue::from_text(response.blockchain_tx_id.as_str()));
    record.insert("blockchainStatus", JsonValue::from_text("Confirmed"));
    record.insert("updatedAt", JsonValue::from_text(response.timestamp.as_str()));
}

fn new_response_record(id: &str, response: &EmergencyResponse) -> (record: JsonObject)
    ensures
        record@ == response_record(id@, response@),
{
    let mut record = JsonObject::new();
    record.insert("id", JsonValue::from_text(id));
    record.insert("request_id", JsonValue::from_text(response.request_id.as_str()));
    record.insert("createdAt", JsonValue::from_text(response.timestamp.as_str()));
    amend_response_record(&mut record, response);
    record
}

/// Gives the request `request_id` the status `new_status` in the request records
/// of other tooling, where there is such a store: the first record whose `id` is
/// that of the request has its `status` set, and its `updatedAt` set to `now`.
/// Where no record has that `id`, and where there is no store, nothing changes.
pub fn update_server_emergency_request_status(
    requests: &mut Option<Vec<JsonObject>>,
    request_id: &str,
    new_status: &str,
    now: &str,
)
    ensures
        mirror_model(*final(requests)) == request_store_marked(
            mirror_model(*old(requests)),
            request_id@,
            new_status@,
            now@,
        ),
{
    match requests.take() {
        None => {},
        Some(records) => {
            let mut records = records;
            let ghost before = objects_model(records@);
            let place = place_of_record(&records, "id", request_id);
            if place < records.len() {
                let mut record = records.remove(place);
                assert(record@ == before[place as int]);
                record.insert("status", JsonValue::from_text(new_status));
                record.insert("updatedAt", JsonValue::from_text(now));
                let ghost marked = record@;
                records.insert(place, record);
                assert(objects_model(records@) =~= before.update(place as int, marked));
            }
            *requests = Some(records);
        },
    }
}

/// Writes a response into the response records of other tooling, and marks its
/// request as assigned.
///
/// In a store that exists the first record with the `request_id` of the response
/// gets the fields of the response, and keeps its other fields; where there is
/// none, a full record comes last, whose `id` is `resp_` and the identifier of
/// the request. Then the request is given the status "Assigned" in the request
/// records, as [`update_server_emergency_request_status`] does it. Where the
/// response store does not exist, it is made with the one record, whose `id` is
/// the identifier of the request, and the request records are left alone.
pub fn update_server_emergency_response(
    responses: &mut Option<Vec<JsonObject>>,
    requests: &mut Option<Vec<JsonObject>>,
    response: &EmergencyResponse,
    now: &str,
)
    ensures
        mirror_model(*final(responses)) == Some(
            responses_mirrored(mirror_model(*old(responses)), response@),
        ),
        mirror_model(*final(requests)) == if old(responses).is_some() {
            request_store_marked(mirror_model(*old(requests)), response@.request_id, ASSIGNED@, now@)
        } else {
            mirror_model(*old(requests))
        },
{
    match responses.take() {
        None => {
            let record = new_response_record(response.request_id.as_str(), response);
            let ghost made = record@;
            let mut records: Vec<JsonObject> = Vec::new();
            records.push(record);
            assert(objects_model(records@) =~= seq![made]);
            *responses = Some(records);
        },
        Some(records) => {
            let mut records = records;
            let ghost before = objects_model(records@);
            let place = place_of_record(&records, "request_id", response.request_id.as_str());
            if place < records.len() {
                let mut record = records.remove(place);
                assert(record@ == before[place as int]);
                amend_response_record(&mut record, response);
                let ghost amended = record@;
                records.insert(place, record);
                assert(objects_model(records@) =~= before.update(place as int, amended));
            } else {
                let mut id = "resp_".to_owned();
                id.append(response.request_id.as_str());
                let record = new_response_record(id.as_str(), response);
                let ghost made = record@;
                records.push(record);
                assert(objects_model(records@) =~= before.push(made));
            }
            *responses = Some(records);
            update_server_emergency_request_status(
                requests,
                response.request_id.as_str(),
                ASSIGNED,
                now,
            );
        },
    }
}

} // verus!
