//! What holds of every run of the processing workflow.
//!
//! A run starts in some state and takes a sequence of answers, one per step.
//! The statements below speak of the state reached after a number of answers
//! and of the action that each answer leads to.

use vstd::prelude::*;
use crate::submissions::document_map::{spec_map_usable, spec_recorded_name};
use crate::submissions::errors::{
    lemma_not_found_kinds_distinguishable,
    ErrorCategory,
    ErrorKind,
    SubmissionErrorView,
};
use crate::submissions::processing::{
    spec_after_submission,
    spec_fail,
    spec_start,
    spec_step,
    ApprovedRecord,
    ProcessingActionView,
    ProcessingEvent,
    ProcessingStateView,
    SubmissionRecord,
};
use crate::submissions::submission_controller::SubmissionType;
use crate::submissions::vocabulary::{DocumentRole, SubmissionStatus};

verus! {

/// The state that a run from `start` is in after the first `n` answers.
pub open spec fn spec_state_after(
    start: ProcessingStateView,
    events: Seq<ProcessingEvent>,
    n: nat,
) -> ProcessingStateView
    decreases n,
{
    if n == 0 {
        start
    } else {
        spec_step(spec_state_after(start, events, (n - 1) as nat), events[n - 1]).0
    }
}

/// The action that the answer at index `i` leads to in a run from `start`.
pub open spec fn spec_action_at(
    start: ProcessingStateView,
    events: Seq<ProcessingEvent>,
    i: int,
) -> ProcessingActionView {
    spec_step(spec_state_after(start, events, i as nat), events[i]).1
}

/// How far a state is into the workflow. Every step moves further.
pub open spec fn spec_stage(state: ProcessingStateView) -> nat {
    match state {
        ProcessingStateView::AwaitingSubmission { .. } => 0,
        ProcessingStateView::AwaitingSelfieCheck { .. } => 1,
        ProcessingStateView::AwaitingSelfieUrl { .. } => 2,
        ProcessingStateView::AwaitingNfcUrl { .. } => 3,
        ProcessingStateView::AwaitingApproved { .. } => 3,
        ProcessingStateView::AwaitingPriorSelfieCheck { .. } => 4,
        ProcessingStateView::AwaitingPriorSelfieUrl { .. } => 5,
        ProcessingStateView::AwaitingComparison { .. } => 6,
        ProcessingStateView::AwaitingStatusUpdate { .. } => 7,
        ProcessingStateView::Finished => 8,
    }
}

/// The number of answers after which every run has ended.
pub open spec fn spec_longest_run() -> nat {
    8
}

/// A step ends the workflow exactly when it reports an outcome, and every
/// step that does not end it moves to a later stage. Once ended, the workflow
/// answers every further event with a system failure and stays ended.
pub proof fn lemma_step_advances(state: ProcessingStateView, event: ProcessingEvent)
    ensures
        spec_step(state, event).1 is Done <==> spec_step(state, event).0 is Finished,
        !(state is Finished) ==> spec_stage(spec_step(state, event).0) > spec_stage(state),
        state is Finished ==> spec_step(state, event) == spec_fail(ErrorKind::System),
{
}

/// Along a run the stage never falls, and it rises with every answer until
/// the workflow has ended.
pub proof fn lemma_stage_rises(
    start: ProcessingStateView,
    events: Seq<ProcessingEvent>,
    n: nat,
    m: nat,
)
    requires
        n <= m,
    ensures
        spec_stage(spec_state_after(start, events, n)) <= spec_stage(
            spec_state_after(start, events, m),
        ),
        spec_state_after(start, events, n) is Finished ==> spec_state_after(start, events, m)
            is Finished,
        spec_state_after(start, events, m) is Finished || spec_stage(
            spec_state_after(start, events, m),
        ) >= spec_stage(spec_state_after(start, events, n)) + (m - n),
    decreases m,
{
    if n < m {
        lemma_stage_rises(start, events, n, (m - 1) as nat);
        lemma_step_advances(spec_state_after(start, events, (m - 1) as nat), events[m - 1]);
    }
}

/// Every run ends: whatever the answers are, after eight of them the
/// workflow has reported its outcome.
pub proof fn lemma_run_ends(start: ProcessingStateView, events: Seq<ProcessingEvent>, n: nat)
    requires
        n >= spec_longest_run(),
    ensures
        spec_state_after(start, events, n) is Finished,
{
    lemma_stage_rises(start, events, 0, n);
}

/// Processing an id under which the store holds no submission is not found,
/// and so is processing an id that is no UUID; neither is any other kind of
/// failure.
pub proof fn lemma_unknown_submission_is_not_found(submission_id: Seq<char>)
    ensures
        spec_start(submission_id).1 is FindSubmission || spec_start(submission_id) == spec_fail(
            ErrorKind::NotFound,
        ),
        spec_step(
            ProcessingStateView::AwaitingSubmission { submission_id },
            ProcessingEvent::SubmissionLookedUp(Ok(None)),
        ) == spec_fail(ErrorKind::NotFound),
        spec_fail(ErrorKind::NotFound).1 == (ProcessingActionView::Done {
            outcome: Err(SubmissionErrorView::of(ErrorKind::NotFound)),
        }),
        ErrorKind::NotFound.spec_category() == ErrorCategory::NotFound,
{
}

/// Whether `record` is of the given type with a usable document map.
pub open spec fn spec_is_usable_record(record: SubmissionRecord, kind: SubmissionType) -> bool {
    &&& SubmissionType::spec_parse(record.submission_type@) == Some(kind)
    &&& spec_map_usable(record.submission_data)
}

/// A submission whose document map records no selfie misses the selfie, and
/// so does one whose selfie is recorded but not in the object store.
pub proof fn lemma_missing_selfie(
    submission_id: Seq<char>,
    record: SubmissionRecord,
    events: Seq<ProcessingEvent>,
)
    requires
        spec_map_usable(record.submission_data),
        events.len() >= 2,
        events[0] == ProcessingEvent::SubmissionLookedUp(Ok(Some(record))),
        events[1] == ProcessingEvent::ObjectChecked(false),
    ensures
        ({
            let start = ProcessingStateView::AwaitingSubmission { submission_id };
            match spec_recorded_name(record.submission_data, DocumentRole::Selfie.spec_name()) {
                None => spec_action_at(start, events, 0) == spec_fail(ErrorKind::SelfieMissing).1,
                Some(name) => {
                    &&& spec_action_at(start, events, 0) == (
                    ProcessingActionView::CheckObjectExists { object_name: name })
                    &&& spec_action_at(start, events, 1) == spec_fail(ErrorKind::SelfieMissing).1
                },
            }
        }),
{
    let start = ProcessingStateView::AwaitingSubmission { submission_id };
    reveal_with_fuel(spec_state_after, 3);
    assert(spec_state_after(start, events, 0) == start);
    assert(spec_state_after(start, events, 1) == spec_step(start, events[0]).0);
}

/// An enrollment whose document map records a selfie but no chip image
/// misses the chip image: once the selfie is found in the object store and
/// has its view URL, the workflow fails with that error, which is another
/// than the one of a missing selfie.
pub proof fn lemma_missing_nfc(
    submission_id: Seq<char>,
    record: SubmissionRecord,
    selfie_url: String,
    events: Seq<ProcessingEvent>,
)
    requires
        spec_is_usable_record(record, SubmissionType::KYC),
        spec_recorded_name(record.submission_data, DocumentRole::Selfie.spec_name()) is Some,
        spec_recorded_name(record.submission_data, DocumentRole::Nfc.spec_name()) is None,
        events.len() >= 3,
        events[0] == ProcessingEvent::SubmissionLookedUp(Ok(Some(record))),
        events[1] == ProcessingEvent::ObjectChecked(true),
        events[2] == ProcessingEvent::ViewUrlIssued(Ok(selfie_url)),
    ensures
        ({
            let start = ProcessingStateView::AwaitingSubmission { submission_id };
            &&& spec_action_at(start, events, 2) == spec_fail(ErrorKind::NfcMissing).1
            &&& spec_state_after(start, events, 3) is Finished
            &&& spec_fail(ErrorKind::NfcMissing).1 != spec_fail(ErrorKind::SelfieMissing).1
        }),
{
    let start = ProcessingStateView::AwaitingSubmission { submission_id };
    reveal_with_fuel(spec_state_after, 4);
    assert(spec_state_after(start, events, 0) == start);
    assert(spec_state_after(start, events, 1) == spec_step(start, events[0]).0);
    assert(spec_state_after(start, events, 2) == spec_step(
        spec_state_after(start, events, 1),
        events[1],
    ).0);
    assert(spec_state_after(start, events, 3) == spec_step(
        spec_state_after(start, events, 2),
        events[2],
    ).0);
}

/// A re-verification for whose correlator the store holds no approved
/// submission fails with its own kind of not-found, which is reported
/// with another cause than an unknown id; and in the whole run, before that answer and
/// after it, the comparator is never asked and no status is written.
pub proof fn lemma_no_approved_submission(
    start: ProcessingStateView,
    events: Seq<ProcessingEvent>,
    k: int,
    j: int,
)
    requires
        0 <= k < events.len(),
        0 <= j < events.len(),
        spec_state_after(start, events, k as nat) is AwaitingApproved,
        events[k] == ProcessingEvent::ApprovedLookedUp(Ok(None::<ApprovedRecord>)),
    ensures
        spec_action_at(start, events, k) == spec_fail(ErrorKind::SubmissionNotFound).1,
        ErrorKind::SubmissionNotFound != ErrorKind::NotFound,
        ErrorKind::SubmissionNotFound.spec_category() == ErrorCategory::NotFound,
        SubmissionErrorView::of(ErrorKind::SubmissionNotFound).api_error()
            != SubmissionErrorView::of(ErrorKind::NotFound).api_error(),
        !(spec_action_at(start, events, j) is CompareFaces),
        !(spec_action_at(start, events, j) is UpdateStatus),
{
    let before = spec_state_after(start, events, j as nat);
    lemma_step_advances(before, events[j]);
    lemma_not_found_kinds_distinguishable();
    if j < k {
        lemma_stage_rises(start, events, (j + 1) as nat, k as nat);
        assert(spec_state_after(start, events, (j + 1) as nat) == spec_step(before, events[j]).0);
    } else if j > k {
        assert(spec_state_after(start, events, (k + 1) as nat) == spec_step(
            spec_state_after(start, events, k as nat),
            events[k],
        ).0);
        lemma_stage_rises(start, events, (k + 1) as nat, j as nat);
    }
}

/// The comparator's verdict alone decides the status: a match is written
/// and reported as approved, anything else as rejected.
pub proof fn lemma_verdict_decides_status(
    submission_id: Seq<char>,
    is_match: bool,
    events: Seq<ProcessingEvent>,
)
    requires
        events.len() >= 2,
        events[0] matches ProcessingEvent::Compared(Ok(verdict)) && verdict.is_match == is_match,
        events[1] == ProcessingEvent::StatusUpdated(Ok(())),
    ensures
        ({
            let start = ProcessingStateView::AwaitingComparison { submission_id };
            let status = if is_match {
                SubmissionStatus::Approved
            } else {
                SubmissionStatus::Rejected
            };
            &&& spec_action_at(start, events, 0) == (ProcessingActionView::UpdateStatus {
                submission_id,
                status,
            })
            &&& spec_action_at(start, events, 1) == (ProcessingActionView::Done {
                outcome: Ok(status.spec_name()),
            })
        }),
{
    let start = ProcessingStateView::AwaitingComparison { submission_id };
    reveal_with_fuel(spec_state_after, 3);
    assert(spec_state_after(start, events, 0) == start);
    assert(spec_state_after(start, events, 1) == spec_step(start, events[0]).0);
}

/// No step ever writes or reports a status other than approved or rejected.
pub proof fn lemma_no_third_status(state: ProcessingStateView, event: ProcessingEvent)
    ensures
        match spec_step(state, event).1 {
            ProcessingActionView::UpdateStatus { status, .. } => status == SubmissionStatus::Approved
                || status == SubmissionStatus::Rejected,
            ProcessingActionView::Done { outcome: Ok(text) } => text
                == SubmissionStatus::Approved.spec_name() || text
                == SubmissionStatus::Rejected.spec_name(),
            _ => true,
        },
{
}

/// Validation fails in a fixed order: the lookup of a row decides between a
/// store failure, an unknown id, an invalid document map and a missing
/// selfie before anything else is asked.
pub proof fn lemma_validation_order(
    submission_id: Seq<char>,
    answer: Result<Option<SubmissionRecord>, String>,
)
    ensures
        match answer {
            Err(cause) => spec_after_submission(submission_id, answer).1 == (
            ProcessingActionView::Done {
                outcome: Err(SubmissionErrorView::dependency(ErrorKind::Persistence, cause@)),
            }),
            Ok(None) => spec_after_submission(submission_id, answer) == spec_fail(
                ErrorKind::NotFound,
            ),
            Ok(Some(record)) => if !spec_map_usable(record.submission_data) {
                spec_after_submission(submission_id, answer) == spec_fail(ErrorKind::InvalidData)
            } else if spec_recorded_name(record.submission_data, DocumentRole::Selfie.spec_name())
                is None {
                spec_after_submission(submission_id, answer) == spec_fail(ErrorKind::SelfieMissing)
            } else {
                spec_after_submission(submission_id, answer).1 is CheckObjectExists
            },
        },
{
}

} // verus!
