use iota_emergency::json::Number;
use iota_emergency::locator::find_nearest_hospitals;
use iota_emergency::model::{ContactInfo, Distance, Hospital, HospitalLocation, HospitalWithDistance};

fn hospital(id: &str) -> Hospital {
    Hospital {
        hospital_id: id.to_string(),
        name: format!("Hospital {}", id),
        location: HospitalLocation {
            latitude: Number::Real(1.5f64.to_bits()),
            longitude: Number::Real(2.5f64.to_bits()),
            address: "1 Main Street".to_string(),
            city: "Springfield".to_string(),
            state: "IL".to_string(),
            country: "US".to_string(),
            postal_code: "62701".to_string(),
        },
        contact: ContactInfo {
            phone: "555-0100".to_string(),
            email: "desk@example.org".to_string(),
            website: "https://example.org".to_string(),
            emergency_phone: "555-0199".to_string(),
        },
        services: vec!["Emergency".to_string()],
        emergency_capacity: 4,
        verification_status: "verified".to_string(),
        timestamp: "2024-01-01T00:00:00+00:00".to_string(),
        admin_id: None,
    }
}

fn at(id: &str, kilometres: f64) -> HospitalWithDistance {
    HospitalWithDistance { hospital: hospital(id), distance: Distance { bits: kilometres.to_bits() } }
}

fn ids(list: &Vec<HospitalWithDistance>) -> Vec<String> {
    list.iter().map(|entry| entry.hospital.hospital_id.clone()).collect()
}

fn kilometres(list: &Vec<HospitalWithDistance>) -> Vec<f64> {
    list.iter().map(|entry| f64::from_bits(entry.distance.bits)).collect()
}

#[test]
fn nearest_of_no_hospitals_is_empty() {
    let found = find_nearest_hospitals(Vec::new(), 5);
    assert!(found.is_empty());
}

#[test]
fn nearest_ranks_by_distance() {
    let found = find_nearest_hospitals(vec![at("c", 30.0), at("a", 1.25), at("b", 7.5)], 5);
    assert_eq!(ids(&found), vec!["a", "b", "c"]);
    assert_eq!(kilometres(&found), vec![1.25, 7.5, 30.0]);
}

#[test]
fn nearest_keeps_the_whole_record() {
    let found = find_nearest_hospitals(vec![at("c", 30.0), at("a", 1.25)], 5);
    assert_eq!(found[0], at("a", 1.25));
    assert_eq!(found[1], at("c", 30.0));
}

#[test]
fn nearest_cuts_at_the_limit() {
    let given = vec![
        at("h1", 9.0),
        at("h2", 3.0),
        at("h3", 12.0),
        at("h4", 1.0),
        at("h5", 6.0),
        at("h6", 2.0),
        at("h7", 20.0),
    ];
    let found = find_nearest_hospitals(given, 5);
    assert_eq!(ids(&found), vec!["h4", "h6", "h2", "h5", "h1"]);
}

#[test]
fn nearest_returns_all_when_there_are_no_more_than_the_limit() {
    let found = find_nearest_hospitals(vec![at("x", 4.0), at("y", 2.0), at("z", 3.0)], 3);
    assert_eq!(ids(&found), vec!["y", "z", "x"]);
    let found = find_nearest_hospitals(vec![at("x", 4.0), at("y", 2.0), at("z", 3.0)], 10);
    assert_eq!(found.len(), 3);
}

#[test]
fn nearest_with_limit_zero_is_empty() {
    let found = find_nearest_hospitals(vec![at("x", 4.0), at("y", 2.0)], 0);
    assert!(found.is_empty());
}

#[test]
fn nearest_keeps_the_order_of_hospitals_equally_far() {
    let given = vec![at("first", 5.0), at("near", 1.0), at("second", 5.0), at("third", 5.0), at("far", 9.0)];
    let found = find_nearest_hospitals(given, 5);
    assert_eq!(ids(&found), vec!["near", "first", "second", "third", "far"]);
}

#[test]
fn nearest_cuts_ties_in_the_order_given() {
    let given = vec![at("a", 2.0), at("b", 2.0), at("c", 2.0)];
    let found = find_nearest_hospitals(given, 2);
    assert_eq!(ids(&found), vec!["a", "b"]);
}

#[test]
fn nearest_is_in_ascending_order_on_many_hospitals() {
    let mut given = Vec::new();
    let mut seed: u64 = 12345;
    for i in 0..200 {
        seed = seed.wrapping_mul(6364136223846793005).wrapping_add(1442695040888963407);
        let kilometres = ((seed >> 33) % 5000) as f64 / 7.0;
        given.push(at(&format!("h{}", i), kilometres));
    }
    let mut expected: Vec<(f64, String)> = given
        .iter()
        .map(|entry| (f64::from_bits(entry.distance.bits), entry.hospital.hospital_id.clone()))
        .collect();
    expected.sort_by(|a, b| a.0.partial_cmp(&b.0).unwrap());
    let found = find_nearest_hospitals(given, 50);
    assert_eq!(found.len(), 50);
    for i in 0..50 {
        assert_eq!(f64::from_bits(found[i].distance.bits), expected[i].0);
        assert_eq!(found[i].hospital.hospital_id, expected[i].1);
    }
    for i in 1..50 {
        assert!(f64::from_bits(found[i - 1].distance.bits) <= f64::from_bits(found[i].distance.bits));
    }
}
