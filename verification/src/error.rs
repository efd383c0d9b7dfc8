//! The ways in which a dispatch can fail.

use vstd::prelude::*;

verus! {

/// Why a dispatch was given up. After any of these no ambulance has been marked
/// as dispatched and no response has been recorded.
#[derive(Clone, Copy, Debug, PartialEq, Eq, Structural)]
pub enum DispatchError {
    /// No hospital is registered.
    NoHospitalsFound,
    /// Hospitals were found, but none of the nearest has an ambulance to send.
    NoAvailableAmbulance,
    /// The ledger could not be reached, or did not answer in time.
    LedgerUnavailable,
    /// The ledger refused the response.
    LedgerRejected,
    /// A store could not be written after the ledger had accepted the response.
    StoreWriteFailed,
}

impl DispatchError {
    /// The error in words.
    pub fn message(&self) -> (text: String)
        ensures
            text@ == match *self {
                DispatchError::NoHospitalsFound => "No hospitals found"@,
                DispatchError::NoAvailableAmbulance => "No available ambulances found"@,
                DispatchError::LedgerUnavailable => "Ledger unavailable"@,
                DispatchError::LedgerRejected => "Ledger rejected the response"@,
                DispatchError::StoreWriteFailed => "Failed to write a store"@,
            },
    {
        match self {
            DispatchError::NoHospitalsFound => "No hospitals found".to_owned(),
            DispatchError::NoAvailableAmbulance => "No available ambulances found".to_owned(),
            DispatchError::LedgerUnavailable => "Ledger unavailable".to_owned(),
            DispatchError::LedgerRejected => "Ledger rejected the response".to_owned(),
            DispatchError::StoreWriteFailed => "Failed to write a store".to_owned(),
        }
    }
}

} // verus!
