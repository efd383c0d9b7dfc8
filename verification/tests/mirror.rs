use iota_emergency::json::{JsonObject, JsonValue, Number};
use iota_emergency::mirror::{
    update_server_ambulance_status, update_server_emergency_request_status,
    update_server_emergency_response, ASSIGNED,
};
use iota_emergency::model::{Ambulance, Distance, EmergencyResponse, Location};

fn text(s: &str) -> JsonValue {
    JsonValue::Text(s.to_string())
}

fn double(x: f64) -> JsonValue {
    JsonValue::Number(Number::Real(x.to_bits()))
}

fn whole(n: u64) -> JsonValue {
    JsonValue::Number(Number::Unsigned(n))
}

fn object(fields: Vec<(&str, JsonValue)>) -> JsonObject {
    JsonObject { entries: fields.into_iter().map(|(k, v)| (k.to_string(), v)).collect() }
}

/// The fields of an object, sorted by name.
fn sorted(record: &JsonObject) -> Vec<(String, String)> {
    let mut fields: Vec<(String, String)> =
        record.entries.iter().map(|(k, v)| (k.clone(), format!("{:?}", v))).collect();
    fields.sort();
    fields
}

fn same_fields(left: &JsonObject, right: &JsonObject) -> bool {
    sorted(left) == sorted(right)
}

fn ambulance(id: &str, status: &str, location: Option<(f64, f64)>) -> Ambulance {
    Ambulance {
        ambulance_id: id.to_string(),
        hospital_id: "h1".to_string(),
        registration_number: format!("REG-{}", id),
        vehicle_type: "Basic".to_string(),
        capacity: 2,
        equipment: vec!["Oxygen".to_string(), "Stretcher".to_string()],
        current_status: status.to_string(),
        current_location: location.map(|(lat, lon)| Location {
            latitude: Number::Real(lat.to_bits()),
            longitude: Number::Real(lon.to_bits()),
        }),
        last_updated: "2024-03-03T10:00:00+00:00".to_string(),
    }
}

fn response() -> EmergencyResponse {
    EmergencyResponse {
        request_id: "r1".to_string(),
        hospital_id: "h1".to_string(),
        hospital_name: "General".to_string(),
        ambulance_id: "a1".to_string(),
        estimated_arrival_time: 4,
        distance: Distance { bits: 3.75f64.to_bits() },
        status: "Assigned".to_string(),
        timestamp: "2024-03-03T10:00:00+00:00".to_string(),
        blockchain_tx_id: "0xabc".to_string(),
    }
}

fn response_record(id: &str) -> JsonObject {
    object(vec![
        ("id", text(id)),
        ("request_id", text("r1")),
        ("hospital_id", text("h1")),
        ("hospital_name", text("General")),
        ("ambulance_id", text("a1")),
        ("estimated_arrival_time", whole(4)),
        ("distance", double(3.75)),
        ("status", text("Assigned")),
        ("blockchainTransactionId", text("0xabc")),
        ("blockchainStatus", text("Confirmed")),
        ("createdAt", text("2024-03-03T10:00:00+00:00")),
        ("updatedAt", text("2024-03-03T10:00:00+00:00")),
    ])
}

#[test]
fn a_known_ambulance_gets_status_time_and_location() {
    let mut records = vec![
        object(vec![("id", text("a0")), ("current_status", text("Available"))]),
        object(vec![
            ("id", text("a1")),
            ("current_status", text("Available")),
            ("updatedAt", text("2020-01-01T00:00:00+00:00")),
            ("colour", text("red")),
        ]),
    ];
    update_server_ambulance_status(&mut records, &ambulance("a1", "Dispatched", Some((1.5, 2.5))));
    assert_eq!(records.len(), 2);
    assert_eq!(records[0], object(vec![("id", text("a0")), ("current_status", text("Available"))]));
    let expected = object(vec![
        ("id", text("a1")),
        ("current_status", text("Dispatched")),
        ("updatedAt", text("2024-03-03T10:00:00+00:00")),
        ("colour", text("red")),
        (
            "current_location",
            JsonValue::Object(object(vec![("latitude", double(1.5)), ("longitude", double(2.5))])),
        ),
    ]);
    assert!(same_fields(&records[1], &expected));
}

#[test]
fn a_known_ambulance_without_location_keeps_the_location_of_its_record() {
    let mut records = vec![object(vec![
        ("id", text("a1")),
        ("current_location", JsonValue::Object(object(vec![("latitude", double(9.0)), ("longitude", double(8.0))]))),
    ])];
    update_server_ambulance_status(&mut records, &ambulance("a1", "Dispatched", None));
    let expected = object(vec![
        ("id", text("a1")),
        ("current_location", JsonValue::Object(object(vec![("latitude", double(9.0)), ("longitude", double(8.0))]))),
        ("current_status", text("Dispatched")),
        ("updatedAt", text("2024-03-03T10:00:00+00:00")),
    ]);
    assert!(same_fields(&records[0], &expected));
}

#[test]
fn an_unknown_ambulance_gets_a_full_record() {
    let mut records = vec![object(vec![("id", text("a0"))]), object(vec![("id", whole(1))])];
    update_server_ambulance_status(&mut records, &ambulance("a1", "Dispatched", Some((1.5, 2.5))));
    assert_eq!(records.len(), 3);
    let expected = object(vec![
        ("id", text("a1")),
        ("hospital_id", text("h1")),
        ("registration_number", text("REG-a1")),
        ("vehicle_type", text("Basic")),
        ("capacity", whole(2)),
        ("current_status", text("Dispatched")),
        ("equipment", JsonValue::Array(vec![text("Oxygen"), text("Stretcher")])),
        (
            "current_location",
            JsonValue::Object(object(vec![("latitude", double(1.5)), ("longitude", double(2.5))])),
        ),
        ("createdAt", text("2024-03-03T10:00:00+00:00")),
        ("updatedAt", text("2024-03-03T10:00:00+00:00")),
    ]);
    assert!(same_fields(&records[2], &expected));
    let mut records = Vec::new();
    update_server_ambulance_status(&mut records, &ambulance("a1", "Dispatched", None));
    assert_eq!(records[0].get("current_location"), Some(&JsonValue::Null));
    assert_eq!(records[0].entries.len(), 10);
}

#[test]
fn only_the_first_record_of_an_ambulance_is_written() {
    let mut records = vec![
        object(vec![("id", text("a1")), ("n", whole(1))]),
        object(vec![("id", text("a1")), ("n", whole(2))]),
    ];
    update_server_ambulance_status(&mut records, &ambulance("a1", "Dispatched", None));
    assert_eq!(records[0].get("current_status"), Some(&text("Dispatched")));
    assert_eq!(records[1], object(vec![("id", text("a1")), ("n", whole(2))]));
}

#[test]
fn a_request_is_marked_in_its_record() {
    let mut requests = Some(vec![
        object(vec![("id", text("r0")), ("status", text("Requested"))]),
        object(vec![("id", text("r1")), ("status", text("Requested")), ("user", text("u1"))]),
    ]);
    update_server_emergency_request_status(&mut requests, "r1", "Assigned", "2024-03-03T10:00:05+00:00");
    let records = requests.unwrap();
    assert_eq!(records[0], object(vec![("id", text("r0")), ("status", text("Requested"))]));
    let expected = object(vec![
        ("id", text("r1")),
        ("status", text("Assigned")),
        ("user", text("u1")),
        ("updatedAt", text("2024-03-03T10:00:05+00:00")),
    ]);
    assert!(same_fields(&records[1], &expected));
}

#[test]
fn a_request_that_is_not_recorded_is_not_added() {
    let mut requests = Some(vec![object(vec![("id", text("r0")), ("status", text("Requested"))])]);
    update_server_emergency_request_status(&mut requests, "r1", "Assigned", "t");
    assert_eq!(requests, Some(vec![object(vec![("id", text("r0")), ("status", text("Requested"))])]));
    let mut none = None;
    update_server_emergency_request_status(&mut none, "r1", "Assigned", "t");
    assert_eq!(none, None);
    let mut empty = Some(Vec::new());
    update_server_emergency_request_status(&mut empty, "r1", "Assigned", "t");
    assert_eq!(empty, Some(Vec::new()));
}

#[test]
fn a_response_store_that_is_missing_is_made_with_the_one_record() {
    let mut responses = None;
    let mut requests = Some(vec![object(vec![("id", text("r1")), ("status", text("Requested"))])]);
    update_server_emergency_response(&mut responses, &mut requests, &response(), "t");
    let records = responses.unwrap();
    assert_eq!(records.len(), 1);
    assert!(same_fields(&records[0], &response_record("r1")));
    assert_eq!(requests, Some(vec![object(vec![("id", text("r1")), ("status", text("Requested"))])]));
}

#[test]
fn a_new_response_comes_last_and_marks_its_request() {
    let mut responses = Some(vec![object(vec![("id", text("resp_r0")), ("request_id", text("r0"))])]);
    let mut requests = Some(vec![object(vec![("id", text("r1")), ("status", text("Requested"))])]);
    update_server_emergency_response(&mut responses, &mut requests, &response(), "2024-03-03T10:00:05+00:00");
    let records = responses.unwrap();
    assert_eq!(records.len(), 2);
    assert_eq!(records[0], object(vec![("id", text("resp_r0")), ("request_id", text("r0"))]));
    assert!(same_fields(&records[1], &response_record("resp_r1")));
    let marked = requests.unwrap();
    assert_eq!(marked[0].get("status"), Some(&text("Assigned")));
    assert_eq!(marked[0].get("updatedAt"), Some(&text("2024-03-03T10:00:05+00:00")));
    assert_eq!(ASSIGNED, "Assigned");
}

#[test]
fn a_known_response_is_written_in_its_place() {
    let mut responses = Some(vec![
        object(vec![
            ("id", text("mine")),
            ("request_id", text("r1")),
            ("status", text("Requested")),
            ("createdAt", text("2020-01-01T00:00:00+00:00")),
            ("note", text("keep")),
        ]),
        object(vec![("id", text("resp_r2")), ("request_id", text("r2"))]),
    ]);
    let mut requests = None;
    update_server_emergency_response(&mut responses, &mut requests, &response(), "t");
    let records = responses.unwrap();
    assert_eq!(records.len(), 2);
    let expected = object(vec![
        ("id", text("mine")),
        ("request_id", text("r1")),
        ("createdAt", text("2020-01-01T00:00:00+00:00")),
        ("note", text("keep")),
        ("hospital_id", text("h1")),
        ("hospital_name", text("General")),
        ("ambulance_id", text("a1")),
        ("estimated_arrival_time", whole(4)),
        ("distance", double(3.75)),
        ("status", text("Assigned")),
        ("blockchainTransactionId", text("0xabc")),
        ("blockchainStatus", text("Confirmed")),
        ("updatedAt", text("2024-03-03T10:00:00+00:00")),
    ]);
    assert!(same_fields(&records[0], &expected));
    assert_eq!(records[1], object(vec![("id", text("resp_r2")), ("request_id", text("r2"))]));
    assert_eq!(requests, None);
}
