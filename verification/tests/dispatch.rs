use iota_emergency::dispatch::{
    build_response, commit_dispatch, commit_dispatch_at, finish_dispatch, plan_dispatch, plan_dispatch_at,
    save_emergency_response, update_ambulance_status, DispatchPlan, DispatchStores, LedgerOutcome, LEDGER_TAG,
};
use iota_emergency::error::DispatchError;
use iota_emergency::json::{JsonObject, JsonValue, Number};
use iota_emergency::model::{
    Ambulance, AmbulanceWithBlock, ContactInfo, Distance, EmergencyRequest, EmergencyResponse, Hospital,
    HospitalLocation, HospitalWithBlock, HospitalWithDistance, Location,
};
use iota_emergency::records::{registered_ambulances_at, registered_hospitals_at};
use iota_emergency::selector::Assignment;
use iota_emergency::stores::{get_response, StoreRead};

const NOW: &str = "2024-06-01T12:00:00+00:00";
const LATER: &str = "2024-06-01T12:00:03+00:00";

/// The distance over the globe between two points, in kilometres.
fn great_circle(lat1: f64, lon1: f64, lat2: f64, lon2: f64) -> f64 {
    let earth_radius = 6371.0;
    let lat1_rad = lat1.to_radians();
    let lat2_rad = lat2.to_radians();
    let delta_lat = (lat2 - lat1).to_radians();
    let delta_lon = (lon2 - lon1).to_radians();
    let a = (delta_lat / 2.0).sin() * (delta_lat / 2.0).sin()
        + lat1_rad.cos() * lat2_rad.cos() * (delta_lon / 2.0).sin() * (delta_lon / 2.0).sin();
    let c = 2.0 * a.sqrt().atan2((1.0 - a).sqrt());
    earth_radius * c
}

fn point(latitude: f64, longitude: f64) -> Location {
    Location { latitude: Number::Real(latitude.to_bits()), longitude: Number::Real(longitude.to_bits()) }
}

fn degrees(number: Number) -> f64 {
    match number {
        Number::Unsigned(n) => n as f64,
        Number::Signed(n) => n as f64,
        Number::Real(bits) => f64::from_bits(bits),
    }
}

fn hospital(id: &str, latitude: f64, longitude: f64) -> Hospital {
    Hospital {
        hospital_id: id.to_string(),
        name: format!("Hospital {}", id),
        location: HospitalLocation {
            latitude: Number::Real(latitude.to_bits()),
            longitude: Number::Real(longitude.to_bits()),
            address: "1 Main Street".to_string(),
            city: "Springfield".to_string(),
            state: "IL".to_string(),
            country: "US".to_string(),
            postal_code: "62701".to_string(),
        },
        contact: ContactInfo {
            phone: "555-0100".to_string(),
            email: "desk@example.org".to_string(),
            website: "https://example.org".to_string(),
            emergency_phone: "555-0199".to_string(),
        },
        services: vec!["Emergency".to_string()],
        emergency_capacity: 4,
        verification_status: "verified".to_string(),
        timestamp: "2024-01-01T00:00:00+00:00".to_string(),
        admin_id: None,
    }
}

fn stored_hospital(id: &str, latitude: f64, longitude: f64) -> HospitalWithBlock {
    HospitalWithBlock {
        hospital: hospital(id, latitude, longitude),
        block_id: "0xh".to_string(),
        timestamp: "2024-01-01T00:00:00+00:00".to_string(),
    }
}

fn ambulance(id: &str, hospital_id: &str, status: &str) -> Ambulance {
    Ambulance {
        ambulance_id: id.to_string(),
        hospital_id: hospital_id.to_string(),
        registration_number: format!("REG-{}", id),
        vehicle_type: "Basic".to_string(),
        capacity: 2,
        equipment: vec!["Oxygen".to_string()],
        current_status: status.to_string(),
        current_location: Some(point(0.0, 0.0)),
        last_updated: "2024-01-01T00:00:00+00:00".to_string(),
    }
}

fn stored_ambulance(id: &str, hospital_id: &str, status: &str) -> AmbulanceWithBlock {
    AmbulanceWithBlock {
        ambulance: ambulance(id, hospital_id, status),
        block_id: "0xa".to_string(),
        timestamp: "2024-01-01T00:00:00+00:00".to_string(),
    }
}

fn request(id: &str, latitude: f64, longitude: f64) -> EmergencyRequest {
    EmergencyRequest {
        request_id: id.to_string(),
        user_id: "u1".to_string(),
        user_location: point(latitude, longitude),
        emergency_type: "Medical".to_string(),
        timestamp: "2024-06-01T11:59:00+00:00".to_string(),
        status: "Requested".to_string(),
    }
}

fn with_distances(request: &EmergencyRequest, hospitals: Vec<Hospital>) -> Vec<HospitalWithDistance> {
    hospitals
        .into_iter()
        .map(|hospital| {
            let kilometres = great_circle(
                degrees(request.user_location.latitude),
                degrees(request.user_location.longitude),
                degrees(hospital.location.latitude),
                degrees(hospital.location.longitude),
            );
            HospitalWithDistance { hospital, distance: Distance { bits: kilometres.to_bits() } }
        })
        .collect()
}

fn at(id: &str, kilometres: f64) -> HospitalWithDistance {
    HospitalWithDistance { hospital: hospital(id, 0.0, 0.0), distance: Distance { bits: kilometres.to_bits() } }
}

fn empty_stores() -> DispatchStores {
    DispatchStores {
        ambulances: Vec::new(),
        responses: Vec::new(),
        server_ambulances: None,
        server_responses: None,
        server_requests: None,
    }
}

fn text(s: &str) -> JsonValue {
    JsonValue::Text(s.to_string())
}

fn object(fields: Vec<(&str, JsonValue)>) -> JsonObject {
    JsonObject { entries: fields.into_iter().map(|(k, v)| (k.to_string(), v)).collect() }
}

fn same_stores(left: &DispatchStores, right: &DispatchStores) -> bool {
    left.ambulances == right.ambulances
        && left.responses == right.responses
        && left.server_ambulances == right.server_ambulances
        && left.server_responses == right.server_responses
        && left.server_requests == right.server_requests
}

#[test]
fn the_tag_of_the_ledger() {
    assert_eq!(LEDGER_TAG, "HEALTHCARE_EMERGENCY_RESPONSE");
}

#[test]
fn one_hospital_with_one_ambulance_is_assigned() {
    let hospital_store = StoreRead::Records(vec![stored_hospital("h1", 0.0, 0.0)]);
    let ambulance_store = StoreRead::Records(vec![stored_ambulance("a1", "h1", "Available")]);
    let call = request("r1", 0.0, 0.01);
    let hospitals = registered_hospitals_at(&hospital_store, &StoreRead::Absent, NOW);
    let fleet = registered_ambulances_at(&ambulance_store, &StoreRead::Absent, NOW);
    let plan = plan_dispatch_at(&call, with_distances(&call, hospitals), &fleet, NOW).unwrap();
    let kilometres = f64::from_bits(plan.response.distance.bits);
    assert!((kilometres - 1.11).abs() < 0.01, "distance was {}", kilometres);
    assert_eq!(plan.response.estimated_arrival_time, 1);
    assert_eq!(plan.response.status, "Assigned");
    assert_eq!(plan.response.request_id, "r1");
    assert_eq!(plan.response.hospital_id, "h1");
    assert_eq!(plan.response.hospital_name, "Hospital h1");
    assert_eq!(plan.response.ambulance_id, "a1");
    assert_eq!(plan.response.timestamp, NOW);
    assert_eq!(plan.response.blockchain_tx_id, "");
    assert_eq!(plan.ambulance, {
        let mut sent = ambulance("a1", "h1", "Dispatched");
        sent.last_updated = NOW.to_string();
        sent
    });
}

#[test]
fn the_nearer_hospital_without_ambulance_is_not_assigned() {
    let call = request("r1", 0.0, 0.0);
    let hospitals = vec![at("H1", 2.0), at("H2", 10.0)];
    let fleet = vec![
        ambulance("a1", "H1", "Dispatched"),
        ambulance("a2", "H1", "Maintenance"),
        ambulance("a3", "H2", "Available"),
    ];
    let plan = plan_dispatch_at(&call, hospitals, &fleet, NOW).unwrap();
    assert_eq!(plan.response.hospital_id, "H2");
    assert_eq!(plan.response.ambulance_id, "a3");
    assert_eq!(plan.response.estimated_arrival_time, 10);
    assert_eq!(f64::from_bits(plan.response.distance.bits), 10.0);
}

#[test]
fn without_hospitals_nothing_is_planned() {
    let call = request("r1", 0.0, 0.0);
    let hospitals = registered_hospitals_at(&StoreRead::Absent, &StoreRead::Absent, NOW);
    let fleet = vec![ambulance("a1", "h1", "Available")];
    let plan = plan_dispatch_at(&call, with_distances(&call, hospitals), &fleet, NOW);
    assert_eq!(plan, Err(DispatchError::NoHospitalsFound));
    let stores = empty_stores();
    assert!(stores.responses.is_empty());
    assert_eq!(get_response(&stores.responses, "r1"), None);
}

#[test]
fn a_failed_ledger_leaves_the_stores_alone() {
    let call = request("r1", 0.0, 0.0);
    let fleet = vec![ambulance("a1", "h1", "Available")];
    for (outcome, error) in [
        (LedgerOutcome::Unavailable, DispatchError::LedgerUnavailable),
        (LedgerOutcome::Rejected, DispatchError::LedgerRejected),
    ] {
        let plan = plan_dispatch_at(&call, vec![at("h1", 3.0)], &fleet, NOW).unwrap();
        let mut stores = DispatchStores {
            ambulances: vec![stored_ambulance("a1", "h1", "Available")],
            responses: Vec::new(),
            server_ambulances: Some(vec![object(vec![("id", text("a1")), ("current_status", text("Available"))])]),
            server_responses: Some(Vec::new()),
            server_requests: Some(vec![object(vec![("id", text("r1")), ("status", text("Requested"))])]),
        };
        let result = commit_dispatch_at(plan, outcome, &mut stores, LATER);
        assert_eq!(result, Err(error));
        assert_eq!(stores.ambulances, vec![stored_ambulance("a1", "h1", "Available")]);
        assert_eq!(stores.ambulances[0].ambulance.current_status, "Available");
        assert!(stores.responses.is_empty());
        assert_eq!(get_response(&stores.responses, "r1"), None);
        assert_eq!(
            stores.server_ambulances,
            Some(vec![object(vec![("id", text("a1")), ("current_status", text("Available"))])])
        );
        assert_eq!(stores.server_responses, Some(Vec::new()));
        assert_eq!(
            stores.server_requests,
            Some(vec![object(vec![("id", text("r1")), ("status", text("Requested"))])])
        );
    }
}

#[test]
fn an_unreadable_ambulance_store_counts_as_empty() {
    let hospital_store = StoreRead::Records(vec![stored_hospital("h1", 0.0, 0.0)]);
    let call = request("r1", 0.0, 0.01);
    let hospitals = registered_hospitals_at(&hospital_store, &StoreRead::Absent, NOW);
    let mirror = StoreRead::Records(vec![object(vec![("id", text("a1")), ("hospital_id", text("h1"))])]);
    let fleet = registered_ambulances_at(&StoreRead::Unreadable, &mirror, NOW);
    assert!(fleet.is_empty());
    let plan = plan_dispatch_at(&call, with_distances(&call, hospitals), &fleet, NOW);
    assert_eq!(plan, Err(DispatchError::NoAvailableAmbulance));
}

#[test]
fn a_committed_response_is_read_back() {
    let call = request("r1", 0.0, 0.0);
    let fleet = vec![ambulance("a1", "h1", "Dispatched"), ambulance("a2", "h2", "Available")];
    let plan = plan_dispatch_at(&call, vec![at("h1", 2.0), at("h2", 7.4)], &fleet, NOW).unwrap();
    let mut stores = DispatchStores {
        ambulances: vec![stored_ambulance("a1", "h1", "Dispatched"), stored_ambulance("a2", "h2", "Available")],
        responses: Vec::new(),
        server_ambulances: None,
        server_responses: None,
        server_requests: None,
    };
    let response =
        commit_dispatch_at(plan, LedgerOutcome::Accepted("0xfeed".to_string()), &mut stores, LATER).unwrap();
    let expected = EmergencyResponse {
        request_id: "r1".to_string(),
        hospital_id: "h2".to_string(),
        hospital_name: "Hospital h2".to_string(),
        ambulance_id: "a2".to_string(),
        estimated_arrival_time: 7,
        distance: Distance { bits: 7.4f64.to_bits() },
        status: "Assigned".to_string(),
        timestamp: NOW.to_string(),
        blockchain_tx_id: "0xfeed".to_string(),
    };
    assert_eq!(response, expected);
    let read = get_response(&stores.responses, "r1").unwrap();
    assert_eq!(read, &expected);
    assert!(!read.blockchain_tx_id.is_empty());
    assert_eq!(stores.responses.len(), 1);
    let mut sent = ambulance("a2", "h2", "Dispatched");
    sent.last_updated = NOW.to_string();
    assert_eq!(
        stores.ambulances,
        vec![
            stored_ambulance("a1", "h1", "Dispatched"),
            AmbulanceWithBlock { ambulance: sent, block_id: "0xfeed".to_string(), timestamp: NOW.to_string() },
        ]
    );
    assert_eq!(stores.server_ambulances, None);
    assert_eq!(stores.server_responses, None);
    assert_eq!(stores.server_requests, None);
}

#[test]
fn a_commit_writes_into_the_records_of_other_tooling() {
    let call = request("r1", 0.0, 0.0);
    let fleet = vec![ambulance("a1", "h1", "Available")];
    let plan = plan_dispatch_at(&call, vec![at("h1", 2.0)], &fleet, NOW).unwrap();
    let mut stores = DispatchStores {
        ambulances: Vec::new(),
        responses: Vec::new(),
        server_ambulances: Some(vec![object(vec![("id", text("a1")), ("current_status", text("Available"))])]),
        server_responses: Some(Vec::new()),
        server_requests: Some(vec![object(vec![("id", text("r1")), ("status", text("Requested"))])]),
    };
    commit_dispatch_at(plan, LedgerOutcome::Accepted("0xfeed".to_string()), &mut stores, LATER).unwrap();
    assert_eq!(stores.ambulances.len(), 1);
    assert_eq!(stores.ambulances[0].ambulance.current_status, "Dispatched");
    assert_eq!(stores.ambulances[0].block_id, "0xfeed");
    let mirrored = &stores.server_ambulances.as_ref().unwrap()[0];
    assert_eq!(mirrored.get("current_status"), Some(&text("Dispatched")));
    assert_eq!(mirrored.get("updatedAt"), Some(&text(NOW)));
    let responses = stores.server_responses.as_ref().unwrap();
    assert_eq!(responses.len(), 1);
    assert_eq!(responses[0].get("id"), Some(&text("resp_r1")));
    assert_eq!(responses[0].get("blockchainTransactionId"), Some(&text("0xfeed")));
    assert_eq!(responses[0].get("distance"), Some(&JsonValue::Number(Number::Real(2.0f64.to_bits()))));
    assert_eq!(responses[0].get("estimated_arrival_time"), Some(&JsonValue::Number(Number::Unsigned(2))));
    let requests = stores.server_requests.as_ref().unwrap();
    assert_eq!(requests[0].get("status"), Some(&text("Assigned")));
    assert_eq!(requests[0].get("updatedAt"), Some(&text(LATER)));
}

#[test]
fn no_ambulance_fails_before_anything_is_recorded() {
    let call = request("r1", 0.0, 0.0);
    let fleet = vec![ambulance("a1", "h1", "Dispatched")];
    assert_eq!(
        plan_dispatch_at(&call, vec![at("h1", 2.0)], &fleet, NOW),
        Err(DispatchError::NoAvailableAmbulance)
    );
    assert_eq!(plan_dispatch(&call, vec![at("h1", 2.0)], &fleet), Err(DispatchError::NoAvailableAmbulance));
    assert_eq!(plan_dispatch(&call, Vec::new(), &fleet), Err(DispatchError::NoHospitalsFound));
}

#[test]
fn planning_at_the_present_time() {
    let call = request("r1", 0.0, 0.0);
    let fleet = vec![ambulance("a1", "h1", "Available")];
    let before = chrono::Utc::now();
    let plan = plan_dispatch(&call, vec![at("h1", 2.0)], &fleet).unwrap();
    let after = chrono::Utc::now();
    let stamped = chrono::DateTime::parse_from_rfc3339(&plan.response.timestamp).unwrap();
    assert!(before <= stamped && stamped <= after);
    assert_eq!(plan.ambulance.last_updated, plan.response.timestamp);
    assert_eq!(plan.ambulance.current_status, "Dispatched");
    let expected = plan_dispatch_at(&call, vec![at("h1", 2.0)], &fleet, &plan.response.timestamp).unwrap();
    assert_eq!(plan, expected);
}

#[test]
fn committing_at_the_present_time() {
    let call = request("r1", 0.0, 0.0);
    let fleet = vec![ambulance("a1", "h1", "Available")];
    let plan = plan_dispatch_at(&call, vec![at("h1", 2.0)], &fleet, NOW).unwrap();
    let mut stores = empty_stores();
    stores.server_responses = Some(Vec::new());
    stores.server_requests = Some(vec![object(vec![("id", text("r1"))])]);
    let before = chrono::Utc::now();
    let response = commit_dispatch(plan, LedgerOutcome::Accepted("0x1".to_string()), &mut stores).unwrap();
    let after = chrono::Utc::now();
    assert_eq!(response.blockchain_tx_id, "0x1");
    assert_eq!(get_response(&stores.responses, "r1"), Some(&response));
    let marked = match stores.server_requests.as_ref().unwrap()[0].get("updatedAt") {
        Some(JsonValue::Text(t)) => chrono::DateTime::parse_from_rfc3339(t).unwrap(),
        other => panic!("no time: {:?}", other),
    };
    assert!(before <= marked && marked <= after);
    let plan = plan_dispatch_at(&call, vec![at("h1", 2.0)], &fleet, NOW).unwrap();
    let mut untouched = empty_stores();
    assert_eq!(
        commit_dispatch(plan, LedgerOutcome::Unavailable, &mut untouched),
        Err(DispatchError::LedgerUnavailable)
    );
    assert!(same_stores(&untouched, &empty_stores()));
}

#[test]
fn a_response_is_built_from_request_and_assignment() {
    let assignment = Assignment {
        hospital: hospital("h7", 1.0, 1.0),
        ambulance: ambulance("a7", "h7", "Available"),
        distance: Distance { bits: 12.6f64.to_bits() },
    };
    let response = build_response(&request("r9", 0.0, 0.0), &assignment, NOW);
    assert_eq!(
        response,
        EmergencyResponse {
            request_id: "r9".to_string(),
            hospital_id: "h7".to_string(),
            hospital_name: "Hospital h7".to_string(),
            ambulance_id: "a7".to_string(),
            estimated_arrival_time: 13,
            distance: Distance { bits: 12.6f64.to_bits() },
            status: "Assigned".to_string(),
            timestamp: NOW.to_string(),
            blockchain_tx_id: String::new(),
        }
    );
}

#[test]
fn saving_a_response_twice_keeps_one_record() {
    let mut stores = empty_stores();
    let mut response = build_response(
        &request("r1", 0.0, 0.0),
        &Assignment {
            hospital: hospital("h1", 0.0, 0.0),
            ambulance: ambulance("a1", "h1", "Available"),
            distance: Distance { bits: 2.0f64.to_bits() },
        },
        NOW,
    );
    response.blockchain_tx_id = "0x1".to_string();
    save_emergency_response(&mut stores, &response, LATER);
    response.blockchain_tx_id = "0x2".to_string();
    save_emergency_response(&mut stores, &response, LATER);
    assert_eq!(stores.responses.len(), 1);
    assert_eq!(stores.responses[0].blockchain_tx_id, "0x2");
    assert_eq!(stores.server_responses, None);
}

#[test]
fn updating_an_ambulance_writes_both_stores() {
    let mut stores = empty_stores();
    stores.ambulances = vec![stored_ambulance("a1", "h1", "Available")];
    stores.server_ambulances = Some(Vec::new());
    let sent = ambulance("a1", "h1", "Available").with_status("Dispatched", NOW);
    update_ambulance_status(&mut stores, &sent, "0xb");
    assert_eq!(stores.ambulances.len(), 1);
    assert_eq!(stores.ambulances[0].ambulance, sent);
    assert_eq!(stores.ambulances[0].block_id, "0xb");
    assert_eq!(stores.ambulances[0].timestamp, NOW);
    let mirrored = stores.server_ambulances.as_ref().unwrap();
    assert_eq!(mirrored.len(), 1);
    assert_eq!(mirrored[0].get("id"), Some(&text("a1")));
    assert_eq!(mirrored[0].get("current_status"), Some(&text("Dispatched")));
}

#[test]
fn stores_start_from_what_was_read() {
    let stores = DispatchStores::from_reads(
        StoreRead::Unreadable,
        StoreRead::Absent,
        StoreRead::Absent,
        StoreRead::Unreadable,
        StoreRead::Records(vec![object(vec![("id", text("r1"))])]),
    );
    assert!(stores.ambulances.is_empty());
    assert!(stores.responses.is_empty());
    assert_eq!(stores.server_ambulances, None);
    assert_eq!(stores.server_responses, Some(Vec::new()));
    assert_eq!(stores.server_requests, Some(vec![object(vec![("id", text("r1"))])]));
    let stores = DispatchStores::from_reads(
        StoreRead::Records(vec![stored_ambulance("a1", "h1", "Available")]),
        StoreRead::Records(Vec::new()),
        StoreRead::Absent,
        StoreRead::Absent,
        StoreRead::Absent,
    );
    assert_eq!(stores.ambulances, vec![stored_ambulance("a1", "h1", "Available")]);
}

#[test]
fn a_dispatch_ends_well_only_when_the_stores_were_written() {
    let response = build_response(
        &request("r1", 0.0, 0.0),
        &Assignment {
            hospital: hospital("h1", 0.0, 0.0),
            ambulance: ambulance("a1", "h1", "Available"),
            distance: Distance { bits: 2.0f64.to_bits() },
        },
        NOW,
    );
    let copy = response.clone();
    assert_eq!(finish_dispatch(response, true), Ok(copy));
    let response = build_response(
        &request("r1", 0.0, 0.0),
        &Assignment {
            hospital: hospital("h1", 0.0, 0.0),
            ambulance: ambulance("a1", "h1", "Available"),
            distance: Distance { bits: 2.0f64.to_bits() },
        },
        NOW,
    );
    assert_eq!(finish_dispatch(response, false), Err(DispatchError::StoreWriteFailed));
}

#[test]
fn a_plan_holds_response_and_ambulance() {
    let plan = DispatchPlan {
        response: build_response(
            &request("r1", 0.0, 0.0),
            &Assignment {
                hospital: hospital("h1", 0.0, 0.0),
                ambulance: ambulance("a1", "h1", "Available"),
                distance: Distance { bits: 2.0f64.to_bits() },
            },
            NOW,
        ),
        ambulance: ambulance("a1", "h1", "Dispatched"),
    };
    assert_eq!(plan.response.ambulance_id, plan.ambulance.ambulance_id);
}
