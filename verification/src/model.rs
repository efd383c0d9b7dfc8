//! The records of the dispatch service and what they mean.
//!
//! Each record has a view that holds its strings as sequences of characters;
//! the contracts of the library speak of views. Latitudes and longitudes are
//! carried as the stores gave them and never computed with here.

use vstd::prelude::*;
use crate::json::Number;
use crate::text::{clone_optional_text, clone_texts};

verus! {

/// The views of a list of records, record by record.
pub open spec fn views<T: View>(items: Seq<T>) -> Seq<T::V> {
    Seq::new(items.len(), |i: int| items[i]@)
}

/// A distance in kilometres that is not negative, held as the bit pattern of its
/// double-precision value. Of two such distances the shorter has the smaller bit
/// pattern, so distances are ordered by `bits`. In that order infinity comes
/// after every finite distance, and what is no number after infinity.
#[derive(Clone, Copy, Debug, PartialEq, Eq)]
pub struct Distance {
    pub bits: u64,
}

/// A point on the globe, in degrees.
#[derive(Clone, Copy, Debug, PartialEq)]
pub struct Location {
    pub latitude: Number,
    pub longitude: Number,
}

/// Where a hospital stands.
#[derive(Debug, PartialEq)]
pub struct HospitalLocation {
    pub latitude: Number,
    pub longitude: Number,
    pub address: String,
    pub city: String,
    pub state: String,
    pub country: String,
    pub postal_code: String,
}

pub struct HospitalLocationView {
    pub latitude: Number,
    pub longitude: Number,
    pub address: Seq<char>,
    pub city: Seq<char>,
    pub state: Seq<char>,
    pub country: Seq<char>,
    pub postal_code: Seq<char>,
}

impl View for HospitalLocation {
    type V = HospitalLocationView;

    open spec fn view(&self) -> HospitalLocationView {
        HospitalLocationView {
            latitude: self.latitude,
            longitude: self.longitude,
            address: self.address@,
            city: self.city@,
            state: self.state@,
            country: self.country@,
            postal_code: self.postal_code@,
        }
    }
}

impl Clone for HospitalLocation {
    fn clone(&self) -> (copy: Self)
        ensures
            copy@ == self@,
    {
        HospitalLocation {
            latitude: self.latitude,
            longitude: self.longitude,
            address: self.address.clone(),
            city: self.city.clone(),
            state: self.state.clone(),
            country: self.country.clone(),
            postal_code: self.postal_code.clone(),
        }
    }
}

/// How a hospital is reached.
#[derive(Debug, PartialEq)]
pub struct ContactInfo {
    pub phone: String,
    pub email: String,
    pub website: String,
    pub emergency_phone: String,
}

pub struct ContactInfoView {
    pub phone: Seq<char>,
    pub email: Seq<char>,
    pub website: Seq<char>,
    pub emergency_phone: Seq<char>,
}

impl View for ContactInfo {
    type V = ContactInfoView;

    open spec fn view(&self) -> ContactInfoView {
        ContactInfoView {
            phone: self.phone@,
            email: self.email@,
            website: self.website@,
            emergency_phone: self.emergency_phone@,
        }
    }
}

impl Clone for ContactInfo {
    fn clone(&self) -> (copy: Self)
        ensures
            copy@ == self@,
    {
        ContactInfo {
            phone: self.phone.clone(),
            email: self.email.clone(),
            website: self.website.clone(),
            emergency_phone: self.emergency_phone.clone(),
        }
    }
}

/// A registered hospital. The dispatch service reads hospitals and never changes
/// one.
#[derive(Debug, PartialEq)]
pub struct Hospital {
    pub hospital_id: String,
    pub name: String,
    pub location: HospitalLocation,
    pub contact: ContactInfo,
    pub services: Vec<String>,
    pub emergency_capacity: u32,
    pub verification_status: String,
    pub timestamp: String,
    pub admin_id: Option<String>,
}

pub struct HospitalView {
    pub hospital_id: Seq<char>,
    pub name: Seq<char>,
    pub location: HospitalLocationView,
    pub contact: ContactInfoView,
    pub services: Seq<Seq<char>>,
    pub emergency_capacity: u32,
    pub verification_status: Seq<char>,
    pub timestamp: Seq<char>,
    pub admin_id: Option<Seq<char>>,
}

impl View for Hospital {
    type V = HospitalView;

    open spec fn view(&self) -> HospitalView {
        HospitalView {
            hospital_id: self.hospital_id@,
            name: self.name@,
            location: self.location@,
            contact: self.contact@,
            services: self.services.deep_view(),
            emergency_capacity: self.emergency_capacity,
            verification_status: self.verification_status@,
            timestamp: self.timestamp@,
            admin_id: self.admin_id.deep_view(),
        }
    }
}

impl Clone for Hospital {
    fn clone(&self) -> (copy: Self)
        ensures
            copy@ == self@,
    {
        Hospital {
            hospital_id: self.hospital_id.clone(),
            name: self.name.clone(),
            location: self.location.clone(),
            contact: self.contact.clone(),
            services: clone_texts(&self.services),
            emergency_capacity: self.emergency_capacity,
            verification_status: self.verification_status.clone(),
            timestamp: self.timestamp.clone(),
            admin_id: clone_optional_text(&self.admin_id),
        }
    }
}

/// A registered ambulance. Its status and the time of its last update change
/// together: see [`Ambulance::with_status`].
#[derive(Debug, PartialEq)]
pub struct Ambulance {
    pub ambulance_id: String,
    pub hospital_id: String,
    pub registration_number: String,
    pub vehicle_type: String,
    pub capacity: u32,
    pub equipment: Vec<String>,
    pub current_status: String,
    pub current_location: Option<Location>,
    pub last_updated: String,
}

pub struct AmbulanceView {
    pub ambulance_id: Seq<char>,
    pub hospital_id: Seq<char>,
    pub registration_number: Seq<char>,
    pub vehicle_type: Seq<char>,
    pub capacity: u32,
    pub equipment: Seq<Seq<char>>,
    pub current_status: Seq<char>,
    pub current_location: Option<Location>,
    pub last_updated: Seq<char>,
}

impl View for Ambulance {
    type V = AmbulanceView;

    open spec fn view(&self) -> AmbulanceView {
        AmbulanceView {
            ambulance_id: self.ambulance_id@,
            hospital_id: self.hospital_id@,
            registration_number: self.registration_number@,
            vehicle_type: self.vehicle_type@,
            capacity: self.capacity,
            equipment: self.equipment.deep_view(),
            current_status: self.current_status@,
            current_location: self.current_location,
            last_updated: self.last_updated@,
        }
    }
}

impl Clone for Ambulance {
    fn clone(&self) -> (copy: Self)
        ensures
            copy@ == self@,
    {
        Ambulance {
            ambulance_id: self.ambulance_id.clone(),
            hospital_id: self.hospital_id.clone(),
            registration_number: self.registration_number.clone(),
            vehicle_type: self.vehicle_type.clone(),
            capacity: self.capacity,
            equipment: clone_texts(&self.equipment),
            current_status: self.current_status.clone(),
            current_location: self.current_location,
            last_updated: self.last_updated.clone(),
        }
    }
}

impl AmbulanceView {
    /// The ambulance with another status, last updated at `now`.
    pub open spec fn with_status(self, status: Seq<char>, now: Seq<char>) -> AmbulanceView {
        AmbulanceView { current_status: status, last_updated: now, ..self }
    }
}

impl Ambulance {
    /// The ambulance with another status. The time of its last update becomes
    /// `now` in the same step; nothing else changes.
    pub fn with_status(&self, status: &str, now: &str) -> (updated: Ambulance)
        ensures
            updated@ == self@.with_status(status@, now@),
    {
        let mut updated = self.clone();
        updated.current_status = status.to_owned();
        updated.last_updated = now.to_owned();
        updated
    }
}

/// A call for help.
#[derive(Debug, PartialEq)]
pub struct EmergencyRequest {
    pub request_id: String,
    pub user_id: String,
    pub user_location: Location,
    pub emergency_type: String,
    pub timestamp: String,
    pub status: String,
}

pub struct EmergencyRequestView {
    pub request_id: Seq<char>,
    pub user_id: Seq<char>,
    pub user_location: Location,
    pub emergency_type: Seq<char>,
    pub timestamp: Seq<char>,
    pub status: Seq<char>,
}

impl View for EmergencyRequest {
    type V = EmergencyRequestView;

    open spec fn view(&self) -> EmergencyRequestView {
        EmergencyRequestView {
            request_id: self.request_id@,
            user_id: self.user_id@,
            user_location: self.user_location,
            emergency_type: self.emergency_type@,
            timestamp: self.timestamp@,
            status: self.status@,
        }
    }
}

/// The answer to a call for help: which hospital and which ambulance were
/// assigned. The name of the hospital is a snapshot taken at assignment. The
/// ledger reference is empty until the ledger has accepted the response.
#[derive(Debug, PartialEq)]
pub struct EmergencyResponse {
    pub request_id: String,
    pub hospital_id: String,
    pub hospital_name: String,
    pub ambulance_id: String,
    pub estimated_arrival_time: u32,
    pub distance: Distance,
    pub status: String,
    pub timestamp: String,
    pub blockchain_tx_id: String,
}

pub struct EmergencyResponseView {
    pub request_id: Seq<char>,
    pub hospital_id: Seq<char>,
    pub hospital_name: Seq<char>,
    pub ambulance_id: Seq<char>,
    pub estimated_arrival_time: u32,
    pub distance: Distance,
    pub status: Seq<char>,
    pub timestamp: Seq<char>,
    pub blockchain_tx_id: Seq<char>,
}

impl View for EmergencyResponse {
    type V = EmergencyResponseView;

    open spec fn view(&self) -> EmergencyResponseView {
        EmergencyResponseView {
            request_id: self.request_id@,
            hospital_id: self.hospital_id@,
            hospital_name: self.hospital_name@,
            ambulance_id: self.ambulance_id@,
            estimated_arrival_time: self.estimated_arrival_time,
            distance: self.distance,
            status: self.status@,
            timestamp: self.timestamp@,
            blockchain_tx_id: self.blockchain_tx_id@,
        }
    }
}

impl Clone for EmergencyResponse {
    fn clone(&self) -> (copy: Self)
        ensures
            copy@ == self@,
    {
        EmergencyResponse {
            request_id: self.request_id.clone(),
            hospital_id: self.hospital_id.clone(),
            hospital_name: self.hospital_name.clone(),
            ambulance_id: self.ambulance_id.clone(),
            estimated_arrival_time: self.estimated_arrival_time,
            distance: self.distance,
            status: self.status.clone(),
            timestamp: self.timestamp.clone(),
            blockchain_tx_id: self.blockchain_tx_id.clone(),
        }
    }
}

/// A hospital and how far it is from the place of a call.
#[derive(Debug, PartialEq)]
pub struct HospitalWithDistance {
    pub hospital: Hospital,
    pub distance: Distance,
}

pub struct HospitalWithDistanceView {
    pub hospital: HospitalView,
    pub distance: Distance,
}

impl View for HospitalWithDistance {
    type V = HospitalWithDistanceView;

    open spec fn view(&self) -> HospitalWithDistanceView {
        HospitalWithDistanceView { hospital: self.hospital@, distance: self.distance }
    }
}

/// A hospital as the hospital store holds it, with the ledger block that
/// registered it.
#[derive(Debug, PartialEq)]
pub struct HospitalWithBlock {
    pub hospital: Hospital,
    pub block_id: String,
    pub timestamp: String,
}

pub struct HospitalWithBlockView {
    pub hospital: HospitalView,
    pub block_id: Seq<char>,
    pub timestamp: Seq<char>,
}

impl View for HospitalWithBlock {
    type V = HospitalWithBlockView;

    open spec fn view(&self) -> HospitalWithBlockView {
        HospitalWithBlockView {
            hospital: self.hospital@,
            block_id: self.block_id@,
            timestamp: self.timestamp@,
        }
    }
}

/// An ambulance as the ambulance store holds it, with the ledger block of its
/// last change.
#[derive(Debug, PartialEq)]
pub struct AmbulanceWithBlock {
    pub ambulance: Ambulance,
    pub block_id: String,
    pub timestamp: String,
}

pub struct AmbulanceWithBlockView {
    pub ambulance: AmbulanceView,
    pub block_id: Seq<char>,
    pub timestamp: Seq<char>,
}

impl View for AmbulanceWithBlock {
    type V = AmbulanceWithBlockView;

    open spec fn view(&self) -> AmbulanceWithBlockView {
        AmbulanceWithBlockView {
            ambulance: self.ambulance@,
            block_id: self.block_id@,
            timestamp: self.timestamp@,
        }
    }
}

} // verus!
