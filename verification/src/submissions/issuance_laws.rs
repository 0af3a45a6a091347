//! What holds of every run of the issuance workflow.

use vstd::prelude::*;
use crate::json::JsonValue;
use crate::submissions::document_map::{
    lemma_document_map_round_trip,
    spec_document_name,
    spec_is_map_json,
};
use crate::submissions::dto::presigned_urls_response::{
    entry_roles,
    record_roles,
    record_views,
    DocumentRecord,
};
use crate::submissions::errors::ErrorKind;
use crate::submissions::issuance::{
    spec_fail,
    spec_issued_roles,
    spec_normalize_correlator,
    spec_object_name,
    spec_plan,
    spec_record,
    spec_recorded_roles,
    spec_records,
    spec_response,
    spec_start,
    spec_step,
    IssuanceActionView,
    IssuanceEvent,
    IssuanceIdsView,
    IssuancePlanView,
    IssuanceRequestView,
    IssuanceStateView,
    CORRELATOR_LIMIT,
};
use crate::submissions::status::StatusLookupView;
use crate::submissions::submission_controller::SubmissionType;
use crate::submissions::submission_service::spec_plan_of;
use crate::submissions::vocabulary::{lemma_roles_distinct, DocumentRole, SubmissionStatus};
use crate::text::lemma_truncate_idempotent;

verus! {

/// The state that a run from `start` is in after the first `n` answers.
pub open spec fn spec_state_after(
    start: IssuanceStateView,
    events: Seq<IssuanceEvent>,
    n: nat,
) -> IssuanceStateView
    decreases n,
{
    if n == 0 {
        start
    } else {
        spec_step(spec_state_after(start, events, (n - 1) as nat), events[n - 1]).0
    }
}

/// The action that the answer at index `i` leads to in a run from `start`.
pub open spec fn spec_action_at(
    start: IssuanceStateView,
    events: Seq<IssuanceEvent>,
    i: int,
) -> IssuanceActionView {
    spec_step(spec_state_after(start, events, i as nat), events[i]).1
}

/// How far a state is into the workflow. Every step moves further.
pub open spec fn spec_stage(state: IssuanceStateView) -> nat {
    match state {
        IssuanceStateView::AwaitingKtpUrl { .. } => 0,
        IssuanceStateView::AwaitingSelfieUrl { .. } => 1,
        IssuanceStateView::AwaitingNfcUpload { .. } => 2,
        IssuanceStateView::AwaitingCreation { .. } => 3,
        IssuanceStateView::Finished => 4,
    }
}

/// The number of answers after which every run has ended.
pub open spec fn spec_longest_run() -> nat {
    4
}

/// A step ends the workflow exactly when it reports an outcome; a step that
/// does not end it moves to a later stage and keeps the plan. Once ended,
/// the workflow answers every further event with a system failure.
pub proof fn lemma_step_advances(state: IssuanceStateView, event: IssuanceEvent)
    ensures
        spec_step(state, event).1 is Done <==> spec_step(state, event).0 is Finished,
        !(state is Finished) ==> spec_stage(spec_step(state, event).0) > spec_stage(state),
        !(spec_step(state, event).0 is Finished) ==> spec_plan_of(spec_step(state, event).0)
            == spec_plan_of(state),
        state is Finished ==> spec_step(state, event) == spec_fail(ErrorKind::System),
{
}

/// Along a run the stage rises with every answer until the workflow has
/// ended, and the plan stays what it was.
pub proof fn lemma_stage_rises(start: IssuanceStateView, events: Seq<IssuanceEvent>, n: nat, m: nat)
    requires
        n <= m,
    ensures
        spec_state_after(start, events, n) is Finished ==> spec_state_after(start, events, m)
            is Finished,
        spec_state_after(start, events, m) is Finished || spec_stage(
            spec_state_after(start, events, m),
        ) >= spec_stage(spec_state_after(start, events, n)) + (m - n),
        spec_state_after(start, events, m) is Finished || spec_plan_of(
            spec_state_after(start, events, m),
        ) == spec_plan_of(spec_state_after(start, events, n)),
    decreases m,
{
    if n < m {
        lemma_stage_rises(start, events, n, (m - 1) as nat);
        lemma_step_advances(spec_state_after(start, events, (m - 1) as nat), events[m - 1]);
    }
}

/// Every run ends: whatever the answers are, after four of them the workflow
/// has reported its outcome.
pub proof fn lemma_run_ends(start: IssuanceStateView, events: Seq<IssuanceEvent>, n: nat)
    requires
        n >= spec_longest_run(),
    ensures
        spec_state_after(start, events, n) is Finished,
{
    lemma_stage_rises(start, events, 0, n);
}

/// An enrollment is answered with upload URLs for the identity card photo
/// and the selfie, a re-verification with one for the selfie alone; the chip
/// image never gets one. This holds of the answer whatever URLs were issued.
pub proof fn lemma_answer_roles(plan: IssuancePlanView, ktp_url: Seq<char>, selfie_url: Seq<char>)
    ensures
        entry_roles(spec_response(plan, ktp_url, selfie_url).documents) == spec_issued_roles(
            plan.submission_type,
        ),
        !spec_issued_roles(plan.submission_type).contains(DocumentRole::Nfc),
        spec_issued_roles(plan.submission_type).contains(DocumentRole::Selfie),
        spec_issued_roles(plan.submission_type).contains(DocumentRole::Ktp) <==> plan.submission_type
            == SubmissionType::KYC,
        spec_issued_roles(plan.submission_type).no_duplicates(),
{
    let roles = spec_issued_roles(plan.submission_type);
    assert(entry_roles(spec_response(plan, ktp_url, selfie_url).documents) =~= roles);
    match plan.submission_type {
        SubmissionType::KYC => {
            assert(roles[0] == DocumentRole::Ktp);
            assert(roles[1] == DocumentRole::Selfie);
        },
        SubmissionType::ON_DEMAND => {
            assert(roles[0] == DocumentRole::Selfie);
        },
    }
}

/// In every run of an issuance, whatever the answers are: an outcome that is
/// an answer names the submission of the plan and holds exactly the upload
/// URLs of the submission's type; and a row that is created is the plan's,
/// with the status `INITIATED`, the plan's correlator, and one record for
/// each recorded role.
pub proof fn lemma_run_follows_plan(plan: IssuancePlanView, events: Seq<IssuanceEvent>, i: int)
    requires
        0 <= i < events.len(),
    ensures
        match spec_action_at(spec_start(plan).0, events, i) {
            IssuanceActionView::Done { outcome: Ok(response) } => {
                &&& response.submission_id == plan.ids.submission_id
                &&& entry_roles(response.documents) == spec_issued_roles(plan.submission_type)
            },
            IssuanceActionView::CreateSubmission {
                submission_id,
                submission_type,
                session_id,
                user_id,
                status,
                documents,
                request_payload,
                correlator,
            } => {
                &&& submission_id == plan.ids.submission_id
                &&& submission_type == plan.submission_type
                &&& session_id == plan.session_id
                &&& user_id == plan.user_id
                &&& status == SubmissionStatus::Initiated
                &&& documents == spec_records(plan)
                &&& record_roles(documents) == spec_recorded_roles(plan.submission_type)
                &&& correlator == plan.correlator
            },
            _ => true,
        },
{
    let start = spec_start(plan).0;
    let before = spec_state_after(start, events, i as nat);
    lemma_stage_rises(start, events, 0, i as nat);
    lemma_step_advances(before, events[i]);
    assert(spec_plan_of(start) == Some(plan));
    assert(record_roles(spec_records(plan)) =~= spec_recorded_roles(plan.submission_type));
    if !(before is Finished) {
        assert(spec_plan_of(before) == Some(plan));
        match spec_step(before, events[i]).1 {
            IssuanceActionView::Done { outcome: Ok(response) } => {
                let ktp_url = before->AwaitingCreation_ktp_url;
                let selfie_url = before->AwaitingCreation_selfie_url;
                lemma_answer_roles(plan, ktp_url, selfie_url);
            },
            _ => {},
        }
    }
}

/// The name of a stored object tells its identifier and its role: two
/// documents have the same object name only if they have the same identifier
/// and the same role.
pub proof fn lemma_object_name_injective(
    a: Seq<char>,
    role_a: DocumentRole,
    b: Seq<char>,
    role_b: DocumentRole,
)
    requires
        spec_object_name(a, role_a) == spec_object_name(b, role_b),
    ensures
        a == b,
        role_a == role_b,
{
    lemma_roles_distinct(role_a, role_b);
    lemma_roles_distinct(role_b, role_a);
    let x = spec_object_name(a, role_a);
    let sa = role_a.spec_suffix();
    let sb = role_b.spec_suffix();
    assert(x.last() == sa.last());
    assert(x.last() == sb.last());
    assert(role_a == role_b);
    assert(x.subrange(0, a.len() as int) =~= a);
    assert(x.subrange(0, b.len() as int) =~= b);
}

/// The stored objects of one issuance have three different names. Two
/// issuances whose identifiers differ role by role share no object name.
/// That two draws of identifiers differ is a matter of chance and is not
/// claimed here.
pub proof fn lemma_object_names_do_not_collide(
    first: IssuanceIdsView,
    second: IssuanceIdsView,
    role_a: DocumentRole,
    role_b: DocumentRole,
)
    ensures
        role_a != role_b ==> spec_object_name(first.of(role_a), role_a) != spec_object_name(
            first.of(role_b),
            role_b,
        ),
        first.of(role_a) != second.of(role_a) && first.of(role_b) != second.of(role_b)
            ==> spec_object_name(first.of(role_a), role_a) != spec_object_name(
            second.of(role_b),
            role_b,
        ),
{
    if spec_object_name(first.of(role_a), role_a) == spec_object_name(first.of(role_b), role_b) {
        lemma_object_name_injective(first.of(role_a), role_a, first.of(role_b), role_b);
    }
    if spec_object_name(first.of(role_a), role_a) == spec_object_name(second.of(role_b), role_b) {
        lemma_object_name_injective(first.of(role_a), role_a, second.of(role_b), role_b);
    }
}

/// Processing finds what issuance recorded: in the stored form of the
/// document map of a plan, the object name read for a recorded role is the
/// name that the document of that role was given, and no name is read for a
/// role that the submission's type does not record.
pub proof fn lemma_recorded_documents_are_found(
    plan: IssuancePlanView,
    records: Seq<DocumentRecord>,
    stored: JsonValue,
    role: DocumentRole,
)
    requires
        record_views(records) == spec_records(plan),
        spec_is_map_json(stored, records),
    ensures
        spec_document_name(stored, role.spec_name()) == if spec_recorded_roles(
            plan.submission_type,
        ).contains(role) {
            Some(spec_object_name(plan.ids.of(role), role))
        } else {
            None
        },
{
    let roles = spec_recorded_roles(plan.submission_type);
    assert(record_views(records).len() == records.len());
    assert(spec_records(plan).len() == roles.len());
    assert forall|i: int| 0 <= i < records.len() implies (#[trigger] records[i])@ == spec_record(
        plan.ids,
        roles[i],
    ) by {
        assert(record_views(records)[i] == records[i]@);
        assert(spec_records(plan)[i] == spec_record(plan.ids, roles[i]));
    }
    assert forall|i: int, j: int| 0 <= i < j < records.len() implies (#[trigger] records[i]).role
        != (#[trigger] records[j]).role by {
        assert(records[i]@.role == roles[i]);
        assert(records[j]@.role == roles[j]);
    }
    lemma_document_map_round_trip(stored, records, role);
    if roles.contains(role) {
        let i = choose|i: int| 0 <= i < roles.len() && roles[i] == role;
        assert(records[i]@.role == role);
        assert(records[i].role == role);
        assert(records[i]@.data.document_name == spec_object_name(plan.ids.of(role), role));
    } else {
        assert forall|i: int| 0 <= i < records.len() implies (#[trigger] records[i]).role
            != role by {
            assert(records[i]@.role == roles[i]);
        }
    }
}

/// A correlator is cut the same way when a submission is issued and when it
/// is looked up, so a lookup with the correlator that a submission was issued
/// with asks for what was stored; and what was stored is not cut again.
pub proof fn lemma_correlator_round_trip(
    request: IssuanceRequestView,
    ids: IssuanceIdsView,
    lookup: StatusLookupView,
)
    requires
        lookup.correlator == spec_normalize_correlator(request.correlator),
    ensures
        spec_plan(request, ids).correlator == lookup.correlator,
        spec_normalize_correlator(lookup.correlator) == lookup.correlator,
        lookup.correlator.len() <= CORRELATOR_LIMIT,
        request.correlator.len() <= CORRELATOR_LIMIT ==> lookup.correlator == request.correlator,
{
    lemma_truncate_idempotent(request.correlator, CORRELATOR_LIMIT as nat);
}

} // verus!
