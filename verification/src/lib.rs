//! Emergency dispatch: matching a call for help with the nearest hospital that
//! has an ambulance to send.
//!
//! Given a call with its place, the registered hospitals with their distances
//! from that place and the registered ambulances, the library ranks the
//! hospitals, selects hospital and ambulance, estimates the time of arrival and
//! makes the response. Once the caller has anchored the response in the ledger,
//! the library records the assignment in the stores. The files behind the
//! stores, the ledger and the computing of distances over the globe are the
//! caller's business; the library works on values.

pub mod availability;
pub mod clock;
pub mod dispatch;
pub mod error;
pub mod eta;
pub mod json;
pub mod locator;
pub mod mirror;
pub mod model;
pub mod records;
pub mod selector;
pub mod stores;
pub mod text;
pub mod wallet;
