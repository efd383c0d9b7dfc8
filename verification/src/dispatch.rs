//! From a call for help to a recorded assignment.
//!
//! A dispatch runs in three steps. [`plan_dispatch`] selects the hospital and the
//! ambulance and makes the response, which is not yet anchored. The caller
//! submits the response to the ledger under [`LEDGER_TAG`] and reports how that
//! went as a [`LedgerOutcome`]. [`commit_dispatch`] then writes the assignment
//! into the stores, or, where the ledger did not accept the response, leaves
//! every store as it was. The ledger comes first: nothing is recorded that was
//! not anchored. Last, the caller writes the stores back and reports that to
//! [`finish_dispatch`].

use vstd::prelude::*;
use crate::availability::DISPATCHED;
use crate::clock::current_timestamp;
use crate::error::DispatchError;
use crate::eta::{calculate_eta, eta_minutes};
use crate::json::{JsonModel, JsonObject};
use crate::mirror::{
    ambulances_mirrored, mirror_model, request_store_marked, responses_mirrored,
    update_server_ambulance_status, update_server_emergency_response, ASSIGNED,
};
use crate::model::{
    views, Ambulance, AmbulanceView, AmbulanceWithBlock, AmbulanceWithBlockView, EmergencyRequest,
    EmergencyRequestView, EmergencyResponse, EmergencyResponseView, HospitalWithDistance,
    HospitalWithDistanceView,
};
use crate::selector::{select_assignment, selection, Assignment, AssignmentView};
use crate::stores::{
    answers, first_wanted, is_ambulance, lemma_put_then_find, put, put_ambulance, put_response,
    stored_ambulance, StoreRead,
};

verus! {

/// The tag under which responses are submitted to the ledger.
pub const LEDGER_TAG: &'static str = "HEALTHCARE_EMERGENCY_RESPONSE";

/// How the submission of a response to the ledger went.
#[derive(Debug, PartialEq)]
pub enum LedgerOutcome {
    /// The ledger accepted the response and gave this reference to it.
    Accepted(String),
    /// The ledger could not be reached, or did not answer in time.
    Unavailable,
    /// The ledger refused the response.
    Rejected,
}

pub enum LedgerOutcomeView {
    Accepted(Seq<char>),
    Unavailable,
    Rejected,
}

impl View for LedgerOutcome {
    type V = LedgerOutcomeView;

    open spec fn view(&self) -> LedgerOutcomeView {
        match self {
            LedgerOutcome::Accepted(anchor) => LedgerOutcomeView::Accepted(anchor@),
            LedgerOutcome::Unavailable => LedgerOutcomeView::Unavailable,
            LedgerOutcome::Rejected => LedgerOutcomeView::Rejected,
        }
    }
}

/// What a dispatch is about to record: the response, not yet anchored, and the
/// chosen ambulance as it will be once it is on its way.
#[derive(Debug, PartialEq)]
pub struct DispatchPlan {
    pub response: EmergencyResponse,
    pub ambulance: Ambulance,
}

pub struct DispatchPlanView {
    pub response: EmergencyResponseView,
    pub ambulance: AmbulanceView,
}

impl View for DispatchPlan {
    type V = DispatchPlanView;

    open spec fn view(&self) -> DispatchPlanView {
        DispatchPlanView { response: self.response@, ambulance: self.ambulance@ }
    }
}

/// The stores that a dispatch writes to: the ambulance store and the response
/// store of the dispatch service, and the records that other tooling keeps of
/// ambulances, responses and requests, where there are such.
#[derive(Debug)]
pub struct DispatchStores {
    pub ambulances: Vec<AmbulanceWithBlock>,
    pub responses: Vec<EmergencyResponse>,
    pub server_ambulances: Option<Vec<JsonObject>>,
    pub server_responses: Option<Vec<JsonObject>>,
    pub server_requests: Option<Vec<JsonObject>>,
}

pub struct DispatchStoresView {
    pub ambulances: Seq<AmbulanceWithBlockView>,
    pub responses: Seq<EmergencyResponseView>,
    pub server_ambulances: Option<Seq<Map<Seq<char>, JsonModel>>>,
    pub server_responses: Option<Seq<Map<Seq<char>, JsonModel>>>,
    pub server_requests: Option<Seq<Map<Seq<char>, JsonModel>>>,
}

impl View for DispatchStores {
    type V = DispatchStoresView;

    open spec fn view(&self) -> DispatchStoresView {
        DispatchStoresView {
            ambulances: views(self.ambulances@),
            responses: views(self.responses@),
            server_ambulances: mirror_model(self.server_ambulances),
            server_responses: mirror_model(self.server_responses),
            server_requests: mirror_model(self.server_requests),
        }
    }
}

impl DispatchStores {
    /// The stores as they were read. A store of the dispatch service that is
    /// missing or cannot be read starts empty. Records of other tooling that
    /// are missing stay missing; such that cannot be read start empty.
    pub fn from_reads(
        ambulances: StoreRead<AmbulanceWithBlock>,
        responses: StoreRead<EmergencyResponse>,
        server_ambulances: StoreRead<JsonObject>,
        server_responses: StoreRead<JsonObject>,
        server_requests: StoreRead<JsonObject>,
    ) -> (stores: DispatchStores)
        ensures
            stores.ambulances@ == match ambulances {
                StoreRead::Records(list) => list@,
                _ => Seq::<AmbulanceWithBlock>::empty(),
            },
            stores.responses@ == match responses {
                StoreRead::Records(list) => list@,
                _ => Seq::<EmergencyResponse>::empty(),
            },
            server_ambulances is Absent <==> stores.server_ambulances.is_none(),
            server_responses is Absent <==> stores.server_responses.is_none(),
            server_requests is Absent <==> stores.server_requests.is_none(),
            stores.server_ambulances matches Some(list) ==> list@ == match server_ambulances {
                StoreRead::Records(records) => records@,
                _ => Seq::<JsonObject>::empty(),
            },
            stores.server_responses matches Some(list) ==> list@ == match server_responses {
                StoreRead::Records(records) => records@,
                _ => Seq::<JsonObject>::empty(),
            },
            stores.server_requests matches Some(list) ==> list@ == match server_requests {
                StoreRead::Records(records) => records@,
                _ => Seq::<JsonObject>::empty(),
            },
    {
        DispatchStores {
            ambulances: ambulances.records_or_empty(),
            responses: responses.records_or_empty(),
            server_ambulances: server_ambulances.existing_records(),
            server_responses: server_responses.existing_records(),
            server_requests: server_requests.existing_records(),
        }
    }
}

/// The response that assigns `assignment` to `request` at the time `now`: its
/// status is "Assigned", its estimate is that for the distance of the hospital,
/// and its ledger reference is empty.
pub open spec fn response_to(
    request: EmergencyRequestView,
    assignment: AssignmentView,
    now: Seq<char>,
) -> EmergencyResponseView {
    EmergencyResponseView {
        request_id: request.request_id,
        hospital_id: assignment.hospital.hospital_id,
        hospital_name: assignment.hospital.name,
        ambulance_id: assignment.ambulance.ambulance_id,
        estimated_arrival_time: eta_minutes(assignment.distance),
        distance: assignment.distance,
        status: ASSIGNED@,
        timestamp: now,
        blockchain_tx_id: Seq::empty(),
    }
}

/// The plan that assigns `assignment` to `request` at the time `now`.
pub open spec fn plan_for(
    request: EmergencyRequestView,
    assignment: AssignmentView,
    now: Seq<char>,
) -> DispatchPlanView {
    DispatchPlanView {
        response: response_to(request, assignment, now),
        ambulance: assignment.ambulance.with_status(DISPATCHED@, now),
    }
}

/// How planning ends for `request` at the time `now`, given the registered
/// hospitals with their distances from the call and the registered ambulances.
pub open spec fn planned(
    request: EmergencyRequestView,
    hospitals: Seq<HospitalWithDistanceView>,
    ambulances: Seq<AmbulanceView>,
    now: Seq<char>,
) -> Result<DispatchPlanView, DispatchError> {
    match selection(hospitals, ambulances) {
        Ok(assignment) => Ok(plan_for(request, assignment, now)),
        Err(error) => Err(error),
    }
}

/// A response with the ledger reference `anchor`.
pub open spec fn anchored(response: EmergencyResponseView, anchor: Seq<char>) -> EmergencyResponseView {
    EmergencyResponseView { blockchain_tx_id: anchor, ..response }
}

/// The stores after `response` has been saved at the time `now`: it stands in
/// the response store, in the response records of other tooling where there are
/// such, and its request is then marked as assigned in the request records.
pub open spec fn response_saved(
    stores: DispatchStoresView,
    response: EmergencyResponseView,
    now: Seq<char>,
) -> DispatchStoresView {
    DispatchStoresView {
        responses: put(stores.responses, answers(response.request_id), response),
        server_responses: match stores.server_responses {
            Some(_) => Some(responses_mirrored(stores.server_responses, response)),
            None => None,
        },
        server_requests: match stores.server_responses {
            Some(_) => request_store_marked(stores.server_requests, response.request_id, ASSIGNED@, now),
            None => stores.server_requests,
        },
        ..stores
    }
}

/// The stores after the new state of `ambulance` has been recorded with the
/// ledger block `block_id`: in the ambulance store, and in the ambulance records
/// of other tooling where there are such.
pub open spec fn ambulance_updated(
    stores: DispatchStoresView,
    ambulance: AmbulanceView,
    block_id: Seq<char>,
) -> DispatchStoresView {
    DispatchStoresView {
        ambulances: put(
            stores.ambulances,
            is_ambulance(ambulance.ambulance_id),
            stored_ambulance(ambulance, block_id),
        ),
        server_ambulances: match stores.server_ambulances {
            Some(records) => Some(ambulances_mirrored(records, ambulance)),
            None => None,
        },
        ..stores
    }
}

/// How a dispatch ends once the ledger has answered, and what the stores hold
/// then. Where the ledger accepted the response, the response carries the
/// reference that the ledger gave, it is saved, and the ambulance is recorded as
/// dispatched. Where it did not, the dispatch fails and the stores are as they
/// were.
pub open spec fn committed(
    plan: DispatchPlanView,
    outcome: LedgerOutcomeView,
    stores: DispatchStoresView,
    now: Seq<char>,
) -> (Result<EmergencyResponseView, DispatchError>, DispatchStoresView) {
    match outcome {
        LedgerOutcomeView::Accepted(anchor) => {
            let response = anchored(plan.response, anchor);
            (Ok(response), ambulance_updated(response_saved(stores, response, now), plan.ambulance, anchor))
        },
        LedgerOutcomeView::Unavailable => (Err(DispatchError::LedgerUnavailable), stores),
        LedgerOutcomeView::Rejected => (Err(DispatchError::LedgerRejected), stores),
    }
}

/// A response that was committed can be read back: after a dispatch that the
/// ledger accepted, the response that the response store holds for the request
/// is the one that was returned. It carries the reference that the ledger gave,
/// which is not empty as long as the ledger gave one that is not, and it names
/// the hospital and the ambulance that the selection chose. The ambulance store
/// holds the chosen ambulance as dispatched.
pub proof fn lemma_committed_response_is_read_back(
    request: EmergencyRequestView,
    hospitals: Seq<HospitalWithDistanceView>,
    ambulances: Seq<AmbulanceView>,
    planned_at: Seq<char>,
    anchor: Seq<char>,
    stores: DispatchStoresView,
    now: Seq<char>,
)
    requires
        planned(request, hospitals, ambulances, planned_at) is Ok,
        anchor.len() > 0,
    ensures
        ({
            let plan = planned(request, hospitals, ambulances, planned_at)->Ok_0;
            let chosen = selection(hospitals, ambulances)->Ok_0;
            let (result, after) = committed(plan, LedgerOutcomeView::Accepted(anchor), stores, now);
            &&& result is Ok
            &&& first_wanted(after.responses, answers(request.request_id)) == Some(result->Ok_0)
            &&& result->Ok_0.blockchain_tx_id == anchor
            &&& result->Ok_0.blockchain_tx_id.len() > 0
            &&& result->Ok_0.request_id == request.request_id
            &&& result->Ok_0.hospital_id == chosen.hospital.hospital_id
            &&& result->Ok_0.hospital_name == chosen.hospital.name
            &&& result->Ok_0.ambulance_id == chosen.ambulance.ambulance_id
            &&& result->Ok_0.status == ASSIGNED@
            &&& first_wanted(after.ambulances, is_ambulance(chosen.ambulance.ambulance_id)) == Some(
                stored_ambulance(chosen.ambulance.with_status(DISPATCHED@, planned_at), anchor),
            )
        }),
{
    let plan = planned(request, hospitals, ambulances, planned_at)->Ok_0;
    let chosen = selection(hospitals, ambulances)->Ok_0;
    let response = anchored(plan.response, anchor);
    lemma_put_then_find(stores.responses, answers(request.request_id), response);
    lemma_put_then_find(
        stores.ambulances,
        is_ambulance(chosen.ambulance.ambulance_id),
        stored_ambulance(plan.ambulance, anchor),
    );
}

/// A dispatch that the ledger did not accept changes nothing: it fails, and the
/// stores are as they were.
pub proof fn lemma_failed_ledger_changes_nothing(
    plan: DispatchPlanView,
    outcome: LedgerOutcomeView,
    stores: DispatchStoresView,
    now: Seq<char>,
)
    requires
        !(outcome is Accepted),
    ensures
        committed(plan, outcome, stores, now).0 is Err,
        committed(plan, outcome, stores, now).1 == stores,
{
}

/// Makes the response that assigns `assignment` to `request` at the time `now`.
pub fn build_response(request: &EmergencyRequest, assignment: &Assignment, now: &str) -> (response:
    EmergencyResponse)
    ensures
        response@ == response_to(request@, assignment@, now@),
{
    EmergencyResponse {
        request_id: request.request_id.clone(),
        hospital_id: assignment.hospital.hospital_id.clone(),
        hospital_name: assignment.hospital.name.clone(),
        ambulance_id: assignment.ambulance.ambulance_id.clone(),
        estimated_arrival_time: calculate_eta(&request.user_location, assignment.distance),
        distance: assignment.distance,
        status: ASSIGNED.to_owned(),
        timestamp: now.to_owned(),
        blockchain_tx_id: String::new(),
    }
}

/// Plans the dispatch for `request` at the time `now`: selects the hospital and
/// the ambulance among `hospitals` and `ambulances`, makes the response and
/// marks the ambulance as dispatched. Nothing is recorded yet.
///
/// Fails with `NoHospitalsFound` where `hospitals` is empty, and with
/// `NoAvailableAmbulance` where none of the five nearest hospitals has both a
/// finite distance and an ambulance whose status is "Available".
pub fn plan_dispatch_at(
    request: &EmergencyRequest,
    hospitals: Vec<HospitalWithDistance>,
    ambulances: &Vec<Ambulance>,
    now: &str,
) -> (plan: Result<DispatchPlan, DispatchError>)
    ensures
        match plan {
            Ok(p) => planned(request@, views(hospitals@), views(ambulances@), now@) == Ok::<
                DispatchPlanView,
                DispatchError,
            >(p@),
            Err(error) => planned(request@, views(hospitals@), views(ambulances@), now@) == Err::<
                DispatchPlanView,
                DispatchError,
            >(error),
        },
{
    match select_assignment(hospitals, ambulances) {
        Ok(assignment) => {
            let response = build_response(request, &assignment, now);
            let ambulance = assignment.ambulance.with_status(DISPATCHED, now);
            Ok(DispatchPlan { response, ambulance })
        },
        Err(error) => Err(error),
    }
}

/// Plans the dispatch for `request` as [`plan_dispatch_at`] does, at the
/// present time. The time that was read is the timestamp of the response.
pub fn plan_dispatch(
    request: &EmergencyRequest,
    hospitals: Vec<HospitalWithDistance>,
    ambulances: &Vec<Ambulance>,
) -> (plan: Result<DispatchPlan, DispatchError>)
    ensures
        match plan {
            Ok(p) => planned(request@, views(hospitals@), views(ambulances@), p@.response.timestamp)
                == Ok::<DispatchPlanView, DispatchError>(p@),
            Err(error) => selection(views(hospitals@), views(ambulances@)) == Err::<
                AssignmentView,
                DispatchError,
            >(error),
        },
{
    let now = current_timestamp();
    plan_dispatch_at(request, hospitals, ambulances, now.as_str())
}

/// Saves a response at the time `now`. In the response store it takes the place
/// of the response to the same request where there is one, and comes last where
/// there is none. Where other tooling keeps response records, it is written into
/// them as [`update_server_emergency_response`] does it, which also marks the
/// request as assigned.
pub fn save_emergency_response(stores: &mut DispatchStores, response: &EmergencyResponse, now: &str)
    ensures
        final(stores)@ == response_saved(old(stores)@, response@, now@),
{
    put_response(&mut stores.responses, response);
    if stores.server_responses.is_some() {
        update_server_emergency_response(
            &mut stores.server_responses,
            &mut stores.server_requests,
            response,
            now,
        );
    }
}

/// Records the new state of an ambulance with the ledger block `block_id`. In
/// the ambulance store the record takes the place of the record of the same
/// ambulance where there is one, and comes last where there is none. Where other
/// tooling keeps ambulance records, the state is written into them as
/// [`update_server_ambulance_status`] does it.
pub fn update_ambulance_status(stores: &mut DispatchStores, ambulance: &Ambulance, block_id: &str)
    ensures
        final(stores)@ == ambulance_updated(old(stores)@, ambulance@, block_id@),
{
    put_ambulance(&mut stores.ambulances, ambulance, block_id);
    match stores.server_ambulances.take() {
        Some(records) => {
            let mut records = records;
            update_server_ambulance_status(&mut records, ambulance);
            stores.server_ambulances = Some(records);
        },
        None => {},
    }
}

/// Ends a dispatch once the ledger has answered, at the time `now`.
///
/// Where the ledger accepted the response, the response gets the reference that
/// the ledger gave, it is saved, the ambulance is recorded as dispatched, and the
/// response comes back. Where the ledger was unavailable or refused the
/// response, the dispatch fails with `LedgerUnavailable` or `LedgerRejected`,
/// and no store is changed.
pub fn commit_dispatch_at(
    plan: DispatchPlan,
    outcome: LedgerOutcome,
    stores: &mut DispatchStores,
    now: &str,
) -> (result: Result<EmergencyResponse, DispatchError>)
    ensures
        final(stores)@ == committed(plan@, outcome@, old(stores)@, now@).1,
        match result {
            Ok(response) => committed(plan@, outcome@, old(stores)@, now@).0 == Ok::<
                EmergencyResponseView,
                DispatchError,
            >(response@),
            Err(error) => committed(plan@, outcome@, old(stores)@, now@).0 == Err::<
                EmergencyResponseView,
                DispatchError,
            >(error),
        },
        !(outcome is Accepted) ==> final(stores)@ == old(stores)@ && result is Err,
{
    match outcome {
        LedgerOutcome::Accepted(anchor) => {
            let mut response = plan.response;
            response.blockchain_tx_id = anchor.clone();
            save_emergency_response(stores, &response, now);
            update_ambulance_status(stores, &plan.ambulance, anchor.as_str());
            Ok(response)
        },
        LedgerOutcome::Unavailable => Err(DispatchError::LedgerUnavailable),
        LedgerOutcome::Rejected => Err(DispatchError::LedgerRejected),
    }
}

/// Ends a dispatch as [`commit_dispatch_at`] does, at the present time. The
/// time matters only to the request records of other tooling, whose `updatedAt`
/// it becomes.
pub fn commit_dispatch(plan: DispatchPlan, outcome: LedgerOutcome, stores: &mut DispatchStores) -> (result:
    Result<EmergencyResponse, DispatchError>)
    ensures
        exists|now: Seq<char>|
            {
                &&& final(stores)@ == (#[trigger] committed(plan@, outcome@, old(stores)@, now)).1
                &&& match result {
                    Ok(response) => committed(plan@, outcome@, old(stores)@, now).0 == Ok::<
                        EmergencyResponseView,
                        DispatchError,
                    >(response@),
                    Err(error) => committed(plan@, outcome@, old(stores)@, now).0 == Err::<
                        EmergencyResponseView,
                        DispatchError,
                    >(error),
                }
            },
        !(outcome is Accepted) ==> final(stores)@ == old(stores)@ && result is Err,
        outcome matches LedgerOutcome::Accepted(anchor) ==> result matches Ok(response)
            && response@ == anchored(plan@.response, anchor@),
{
    let now = current_timestamp();
    let result = commit_dispatch_at(plan, outcome, stores, now.as_str());
    assert(stores@ == committed(plan@, outcome@, old(stores)@, now@).1);
    result
}

/// Ends a dispatch once the caller has written the stores back. The response is
/// given out only where every store was written; else the dispatch fails with
/// `StoreWriteFailed`, since the ledger then holds a response that the stores
/// do not.
pub fn finish_dispatch(response: EmergencyResponse, stores_written: bool) -> (result: Result<
    EmergencyResponse,
    DispatchError,
>)
    ensures
        stores_written ==> result == Ok::<EmergencyResponse, DispatchError>(response),
        !stores_written ==> result == Err::<EmergencyResponse, DispatchError>(
            DispatchError::StoreWriteFailed,
        ),
{
    if stores_written {
        Ok(response)
    } else {
        Err(DispatchError::StoreWriteFailed)
    }
}

} // verus!
