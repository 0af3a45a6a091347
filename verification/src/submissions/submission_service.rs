//! The three operations of the submission lifecycle.
//!
//! Each operation returns the first call to make; the caller makes it and
//! hands the answer to the state's `step`, until the action is `Done`.

use vstd::prelude::*;
use crate::ident::{fresh_identifier, spec_is_issued_identifier};
use crate::submissions::issuance::{
    spec_normalize_correlator,
    spec_plan,
    spec_start,
    IssuanceAction,
    IssuanceIds,
    IssuancePlan,
    IssuancePlanView,
    IssuanceRequest,
    IssuanceState,
    IssuanceStateView,
};
use crate::submissions::processing::{ProcessingAction, ProcessingState};
use crate::submissions::status::{status_lookup, StatusLookup, StatusLookupView};
use crate::submissions::submission_controller::SubmissionType;

verus! {

/// The plan that a started issuance works from.
pub open spec fn spec_plan_of(state: IssuanceStateView) -> Option<IssuancePlanView> {
    match state {
        IssuanceStateView::AwaitingKtpUrl { plan } => Some(plan),
        IssuanceStateView::AwaitingSelfieUrl { plan, .. } => Some(plan),
        IssuanceStateView::AwaitingNfcUpload { plan, .. } => Some(plan),
        IssuanceStateView::AwaitingCreation { plan, .. } => Some(plan),
        IssuanceStateView::Finished => None,
    }
}

/// Draws the identifiers of one issuance. Each is a new random identifier.
pub fn draw_identifiers() -> (r: IssuanceIds)
    ensures
        spec_is_issued_identifier(r@.submission_id),
        spec_is_issued_identifier(r@.ktp_id),
        spec_is_issued_identifier(r@.selfie_id),
        spec_is_issued_identifier(r@.nfc_id),
{
    IssuanceIds {
        submission_id: fresh_identifier(),
        ktp_id: fresh_identifier(),
        selfie_id: fresh_identifier(),
        nfc_id: fresh_identifier(),
    }
}

/// The orchestrator of the submission lifecycle. It keeps nothing between
/// calls: what a workflow has gathered travels in the workflow's state.
#[derive(Debug, Clone, Copy, PartialEq, Eq, Structural)]
pub struct SubmissionService {}

impl SubmissionService {
    /// The orchestrator.
    pub fn new() -> (r: SubmissionService)
        ensures
            r == (SubmissionService {  }),
    {
        SubmissionService {  }
    }

    /// Starts issuing upload credentials: draws the identifiers of the
    /// submission and of its documents, and asks for the first upload URL.
    /// The identifiers are random; whatever they are, the workflow starts
    /// from the plan made of the request and of them.
    pub fn generate_presigned_urls(&self, request: IssuanceRequest) -> (r: (
        IssuanceState,
        IssuanceAction,
    ))
        ensures
            spec_plan_of(r.0@) matches Some(plan) && {
                &&& plan == spec_plan(request@, plan.ids)
                &&& (r.0@, r.1@) == spec_start(plan)
                &&& spec_is_issued_identifier(plan.ids.submission_id)
                &&& spec_is_issued_identifier(plan.ids.ktp_id)
                &&& spec_is_issued_identifier(plan.ids.selfie_id)
                &&& spec_is_issued_identifier(plan.ids.nfc_id)
            },
    {
        let ids = draw_identifiers();
        IssuanceState::start(IssuancePlan::new(request, ids))
    }

    /// Starts processing the submission with the given id.
    pub fn process_submission(&self, submission_id: String) -> (r: (
        ProcessingState,
        ProcessingAction,
    ))
        ensures
            (r.0@, r.1@) == crate::submissions::processing::spec_start(submission_id@),
    {
        ProcessingState::start(submission_id)
    }

    /// The lookup that answers a status inquiry; its answer goes to
    /// [`crate::submissions::status::status_answer`].
    pub fn get_submission_status(&self, submission_type: SubmissionType, nfc_identifier: &str) -> (r:
        StatusLookup)
        ensures
            r@ == (StatusLookupView {
                submission_type,
                correlator: spec_normalize_correlator(nfc_identifier@),
            }),
    {
        status_lookup(submission_type, nfc_identifier)
    }
}

} // verus!
