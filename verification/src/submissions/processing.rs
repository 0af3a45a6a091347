//! Processing a submission: from its id to a terminal status.
//!
//! The workflow is a state machine. Each step names one call for the caller
//! to make (a lookup, an existence check, a view URL, a comparison, a status
//! write) and the next step decides from the answer. Validation fails in a
//! fixed order, each failure with its own error, and nothing that was done is
//! undone.

use vstd::prelude::*;
use crate::ident::{is_uuid_text, spec_is_uuid_text};
use crate::json::{decode_stored, spec_decode_stored, JsonValue};
use crate::services::face_match_service::FaceMatchVerdict;
use crate::submissions::document_map::{
    map_usable,
    recorded_name,
    spec_map_usable,
    spec_recorded_name,
};
use crate::submissions::errors::{ErrorKind, SubmissionError, SubmissionErrorView};
use crate::submissions::submission_controller::{ProcessSubmissionResponse, SubmissionType};
use crate::submissions::vocabulary::{DocumentRole, SubmissionStatus};

verus! {

/// A submission row as the store returns it for a lookup by id.
#[derive(Debug, PartialEq, Eq)]
pub struct SubmissionRecord {
    /// The stored spelling of the submission's type.
    pub submission_type: String,
    /// The stored correlator, if the row has one.
    pub nfc_identifier: Option<String>,
    /// The decoded document map; `None` where the row holds none or what it
    /// holds is no JSON.
    pub submission_data: Option<JsonValue>,
}

/// The latest approved row for a correlator, as the store returns it.
#[derive(Debug, PartialEq, Eq)]
pub struct ApprovedRecord {
    /// The decoded document map; `None` where the row holds none or what it
    /// holds is no JSON.
    pub submission_data: Option<JsonValue>,
}

impl SubmissionRecord {
    /// The row as the workflow reads it, from its columns as they are
    /// stored: the document map is decoded from its JSON text.
    pub fn from_row(
        submission_type: String,
        nfc_identifier: Option<String>,
        submission_data: Option<String>,
    ) -> (r: SubmissionRecord)
        ensures
            r.submission_type == submission_type,
            r.nfc_identifier == nfc_identifier,
            r.submission_data == spec_decode_stored(submission_data),
    {
        SubmissionRecord {
            submission_type,
            nfc_identifier,
            submission_data: decode_stored(submission_data),
        }
    }
}

impl ApprovedRecord {
    /// The row as the workflow reads it, from its document map as it is
    /// stored.
    pub fn from_row(submission_data: Option<String>) -> (r: ApprovedRecord)
        ensures
            r.submission_data == spec_decode_stored(submission_data),
    {
        ApprovedRecord { submission_data: decode_stored(submission_data) }
    }
}

/// The answer to the call that the previous step asked for. A failure of a
/// collaborator carries its diagnostic text.
#[derive(Debug, PartialEq, Eq)]
pub enum ProcessingEvent {
    /// The store's answer to the lookup by id.
    SubmissionLookedUp(Result<Option<SubmissionRecord>, String>),
    /// Whether the object store holds the object.
    ObjectChecked(bool),
    /// The object store's answer to the request for a view URL.
    ViewUrlIssued(Result<String, String>),
    /// The store's answer to the lookup of the latest approved submission.
    ApprovedLookedUp(Result<Option<ApprovedRecord>, String>),
    /// The comparator's answer.
    Compared(Result<FaceMatchVerdict, String>),
    /// The store's answer to the status write.
    StatusUpdated(Result<(), String>),
}

/// The call to make next, or the outcome.
#[derive(Debug, PartialEq, Eq)]
pub enum ProcessingAction {
    /// Look the submission up by its id.
    FindSubmission { submission_id: String },
    /// Ask the object store whether it holds the object.
    CheckObjectExists { object_name: String },
    /// Ask the object store for a view URL of the object.
    IssueViewUrl { object_name: String },
    /// Look up the latest submission with this correlator and status.
    FindLatestByCorrelator { correlator: String, status: SubmissionStatus },
    /// Ask the comparator whether the two images match.
    CompareFaces { image_url_1: String, image_url_2: String, correlation_id: String },
    /// Write the status of the submission.
    UpdateStatus { submission_id: String, status: SubmissionStatus },
    /// The workflow has ended.
    Done { outcome: Result<ProcessSubmissionResponse, SubmissionError> },
}

/// The view of a [`ProcessingAction`].
pub enum ProcessingActionView {
    FindSubmission { submission_id: Seq<char> },
    CheckObjectExists { object_name: Seq<char> },
    IssueViewUrl { object_name: Seq<char> },
    FindLatestByCorrelator { correlator: Seq<char>, status: SubmissionStatus },
    CompareFaces { image_url_1: Seq<char>, image_url_2: Seq<char>, correlation_id: Seq<char> },
    UpdateStatus { submission_id: Seq<char>, status: SubmissionStatus },
    Done { outcome: Result<Seq<char>, SubmissionErrorView> },
}

impl View for ProcessingAction {
    type V = ProcessingActionView;

    open spec fn view(&self) -> ProcessingActionView {
        match self {
            ProcessingAction::FindSubmission { submission_id } => ProcessingActionView::FindSubmission {
                submission_id: submission_id@,
            },
            ProcessingAction::CheckObjectExists { object_name } => ProcessingActionView::CheckObjectExists {
                object_name: object_name@,
            },
            ProcessingAction::IssueViewUrl { object_name } => ProcessingActionView::IssueViewUrl {
                object_name: object_name@,
            },
            ProcessingAction::FindLatestByCorrelator {
                correlator,
                status,
            } => ProcessingActionView::FindLatestByCorrelator {
                correlator: correlator@,
                status: *status,
            },
            ProcessingAction::CompareFaces {
                image_url_1,
                image_url_2,
                correlation_id,
            } => ProcessingActionView::CompareFaces {
                image_url_1: image_url_1@,
                image_url_2: image_url_2@,
                correlation_id: correlation_id@,
            },
            ProcessingAction::UpdateStatus { submission_id, status } => ProcessingActionView::UpdateStatus {
                submission_id: submission_id@,
                status: *status,
            },
            ProcessingAction::Done { outcome } => ProcessingActionView::Done {
                outcome: match outcome {
                    Ok(response) => Ok(response@),
                    Err(error) => Err(error@),
                },
            },
        }
    }
}

/// Where the workflow stands: which answer it waits for, and what it has
/// gathered so far.
#[derive(Debug, PartialEq, Eq)]
pub enum ProcessingState {
    /// Waits for the submission row.
    AwaitingSubmission { submission_id: String },
    /// Waits to learn whether the selfie's object exists.
    AwaitingSelfieCheck {
        submission_id: String,
        kind: Option<SubmissionType>,
        correlator: String,
        selfie_name: String,
        nfc_name: Option<String>,
    },
    /// Waits for the view URL of the selfie.
    AwaitingSelfieUrl {
        submission_id: String,
        kind: Option<SubmissionType>,
        correlator: String,
        nfc_name: Option<String>,
    },
    /// Waits for the view URL of the chip image.
    AwaitingNfcUrl { submission_id: String, selfie_url: String },
    /// Waits for the latest approved submission with the same correlator.
    AwaitingApproved { submission_id: String, selfie_url: String },
    /// Waits to learn whether the approved submission's selfie still exists.
    AwaitingPriorSelfieCheck { submission_id: String, selfie_url: String, prior_selfie_name: String },
    /// Waits for the view URL of the approved submission's selfie.
    AwaitingPriorSelfieUrl { submission_id: String, selfie_url: String },
    /// Waits for the comparator.
    AwaitingComparison { submission_id: String },
    /// Waits for the status write.
    AwaitingStatusUpdate { approved: bool },
    /// The workflow has ended.
    Finished,
}

/// The view of a [`ProcessingState`].
pub enum ProcessingStateView {
    AwaitingSubmission { submission_id: Seq<char> },
    AwaitingSelfieCheck {
        submission_id: Seq<char>,
        kind: Option<SubmissionType>,
        correlator: Seq<char>,
        selfie_name: Seq<char>,
        nfc_name: Option<Seq<char>>,
    },
    AwaitingSelfieUrl {
        submission_id: Seq<char>,
        kind: Option<SubmissionType>,
        correlator: Seq<char>,
        nfc_name: Option<Seq<char>>,
    },
    AwaitingNfcUrl { submission_id: Seq<char>, selfie_url: Seq<char> },
    AwaitingApproved { submission_id: Seq<char>, selfie_url: Seq<char> },
    AwaitingPriorSelfieCheck {
        submission_id: Seq<char>,
        selfie_url: Seq<char>,
        prior_selfie_name: Seq<char>,
    },
    AwaitingPriorSelfieUrl { submission_id: Seq<char>, selfie_url: Seq<char> },
    AwaitingComparison { submission_id: Seq<char> },
    AwaitingStatusUpdate { approved: bool },
    Finished,
}

/// The characters of an optional text.
pub open spec fn optional_text(text: Option<String>) -> Option<Seq<char>> {
    match text {
        Some(s) => Some(s@),
        None => None,
    }
}

impl View for ProcessingState {
    type V = ProcessingStateView;

    open spec fn view(&self) -> ProcessingStateView {
        match self {
            ProcessingState::AwaitingSubmission { submission_id } => ProcessingStateView::AwaitingSubmission {
                submission_id: submission_id@,
            },
            ProcessingState::AwaitingSelfieCheck {
                submission_id,
                kind,
                correlator,
                selfie_name,
                nfc_name,
            } => ProcessingStateView::AwaitingSelfieCheck {
                submission_id: submission_id@,
                kind: *kind,
                correlator: correlator@,
                selfie_name: selfie_name@,
                nfc_name: optional_text(*nfc_name),
            },
            ProcessingState::AwaitingSelfieUrl {
                submission_id,
                kind,
                correlator,
                nfc_name,
            } => ProcessingStateView::AwaitingSelfieUrl {
                submission_id: submission_id@,
                kind: *kind,
                correlator: correlator@,
                nfc_name: optional_text(*nfc_name),
            },
            ProcessingState::AwaitingNfcUrl { submission_id, selfie_url } => ProcessingStateView::AwaitingNfcUrl {
                submission_id: submission_id@,
                selfie_url: selfie_url@,
            },
            ProcessingState::AwaitingApproved { submission_id, selfie_url } => ProcessingStateView::AwaitingApproved {
                submission_id: submission_id@,
                selfie_url: selfie_url@,
            },
            ProcessingState::AwaitingPriorSelfieCheck {
                submission_id,
                selfie_url,
                prior_selfie_name,
            } => ProcessingStateView::AwaitingPriorSelfieCheck {
                submission_id: submission_id@,
                selfie_url: selfie_url@,
                prior_selfie_name: prior_selfie_name@,
            },
            ProcessingState::AwaitingPriorSelfieUrl {
                submission_id,
                selfie_url,
            } => ProcessingStateView::AwaitingPriorSelfieUrl {
                submission_id: submission_id@,
                selfie_url: selfie_url@,
            },
            ProcessingState::AwaitingComparison { submission_id } => ProcessingStateView::AwaitingComparison {
                submission_id: submission_id@,
            },
            ProcessingState::AwaitingStatusUpdate { approved } => ProcessingStateView::AwaitingStatusUpdate {
                approved: *approved,
            },
            ProcessingState::Finished => ProcessingStateView::Finished,
        }
    }
}

/// The end of the workflow in a failure with a fixed cause.
pub open spec fn spec_fail(kind: ErrorKind) -> (ProcessingStateView, ProcessingActionView) {
    (
        ProcessingStateView::Finished,
        ProcessingActionView::Done { outcome: Err(SubmissionErrorView::of(kind)) },
    )
}

/// The end of the workflow in the failure of a collaborator.
pub open spec fn spec_fail_with(kind: ErrorKind, cause: Seq<char>) -> (
    ProcessingStateView,
    ProcessingActionView,
) {
    (
        ProcessingStateView::Finished,
        ProcessingActionView::Done { outcome: Err(SubmissionErrorView::dependency(kind, cause)) },
    )
}

/// How the workflow starts: an id that is no UUID names no submission; any
/// other id is looked up.
pub open spec fn spec_start(submission_id: Seq<char>) -> (ProcessingStateView, ProcessingActionView) {
    if spec_is_uuid_text(submission_id) {
        (
            ProcessingStateView::AwaitingSubmission { submission_id },
            ProcessingActionView::FindSubmission { submission_id },
        )
    } else {
        spec_fail(ErrorKind::NotFound)
    }
}

/// What follows the answer to the lookup by id.
pub open spec fn spec_after_submission(
    submission_id: Seq<char>,
    answer: Result<Option<SubmissionRecord>, String>,
) -> (ProcessingStateView, ProcessingActionView) {
    match answer {
        Err(cause) => spec_fail_with(ErrorKind::Persistence, cause@),
        Ok(None) => spec_fail(ErrorKind::NotFound),
        Ok(Some(record)) => if !spec_map_usable(record.submission_data) {
            spec_fail(ErrorKind::InvalidData)
        } else {
            match spec_recorded_name(record.submission_data, DocumentRole::Selfie.spec_name()) {
                None => spec_fail(ErrorKind::SelfieMissing),
                Some(selfie_name) => (
                    ProcessingStateView::AwaitingSelfieCheck {
                        submission_id,
                        kind: SubmissionType::spec_parse(record.submission_type@),
                        correlator: match record.nfc_identifier {
                            Some(c) => c@,
                            None => Seq::empty(),
                        },
                        selfie_name,
                        nfc_name: spec_recorded_name(
                            record.submission_data,
                            DocumentRole::Nfc.spec_name(),
                        ),
                    },
                    ProcessingActionView::CheckObjectExists { object_name: selfie_name },
                ),
            }
        },
    }
}

/// What follows the view URL of the selfie: the branch by the submission's type.
pub open spec fn spec_after_selfie_url(
    submission_id: Seq<char>,
    kind: Option<SubmissionType>,
    correlator: Seq<char>,
    nfc_name: Option<Seq<char>>,
    selfie_url: Seq<char>,
) -> (ProcessingStateView, ProcessingActionView) {
    match kind {
        Some(SubmissionType::KYC) => match nfc_name {
            None => spec_fail(ErrorKind::NfcMissing),
            Some(object_name) => (
                ProcessingStateView::AwaitingNfcUrl { submission_id, selfie_url },
                ProcessingActionView::IssueViewUrl { object_name },
            ),
        },
        Some(SubmissionType::ON_DEMAND) => (
            ProcessingStateView::AwaitingApproved { submission_id, selfie_url },
            ProcessingActionView::FindLatestByCorrelator {
                correlator,
                status: SubmissionStatus::Approved,
            },
        ),
        None => spec_fail(ErrorKind::InvalidSubmissionType),
    }
}

/// What follows the answer to the lookup of the latest approved submission.
pub open spec fn spec_after_approved(
    submission_id: Seq<char>,
    selfie_url: Seq<char>,
    answer: Result<Option<ApprovedRecord>, String>,
) -> (ProcessingStateView, ProcessingActionView) {
    match answer {
        Err(cause) => spec_fail_with(ErrorKind::Persistence, cause@),
        Ok(None) => spec_fail(ErrorKind::SubmissionNotFound),
        Ok(Some(record)) => if !spec_map_usable(record.submission_data) {
            spec_fail(ErrorKind::InvalidData)
        } else {
            match spec_recorded_name(record.submission_data, DocumentRole::Selfie.spec_name()) {
                None => spec_fail(ErrorKind::SelfieMissing),
                Some(prior_selfie_name) => (
                    ProcessingStateView::AwaitingPriorSelfieCheck {
                        submission_id,
                        selfie_url,
                        prior_selfie_name,
                    },
                    ProcessingActionView::CheckObjectExists { object_name: prior_selfie_name },
                ),
            }
        },
    }
}

/// The comparison of `first` with `second` for the submission.
pub open spec fn spec_compare(submission_id: Seq<char>, first: Seq<char>, second: Seq<char>) -> (
    ProcessingStateView,
    ProcessingActionView,
) {
    (
        ProcessingStateView::AwaitingComparison { submission_id },
        ProcessingActionView::CompareFaces {
            image_url_1: first,
            image_url_2: second,
            correlation_id: submission_id,
        },
    )
}

/// The step of the workflow: the state after `event`, and the next call or
/// the outcome. An answer that the state does not wait for ends the workflow
/// in a system failure.
pub open spec fn spec_step(state: ProcessingStateView, event: ProcessingEvent) -> (
    ProcessingStateView,
    ProcessingActionView,
) {
    match (state, event) {
        (
            ProcessingStateView::AwaitingSubmission { submission_id },
            ProcessingEvent::SubmissionLookedUp(answer),
        ) => spec_after_submission(submission_id, answer),
        (
            ProcessingStateView::AwaitingSelfieCheck {
                submission_id,
                kind,
                correlator,
                selfie_name,
                nfc_name,
            },
            ProcessingEvent::ObjectChecked(exists),
        ) => if exists {
            (
                ProcessingStateView::AwaitingSelfieUrl { submission_id, kind, correlator, nfc_name },
                ProcessingActionView::IssueViewUrl { object_name: selfie_name },
            )
        } else {
            spec_fail(ErrorKind::SelfieMissing)
        },
        (
            ProcessingStateView::AwaitingSelfieUrl { submission_id, kind, correlator, nfc_name },
            ProcessingEvent::ViewUrlIssued(answer),
        ) => match answer {
            Err(cause) => spec_fail_with(ErrorKind::Storage, cause@),
            Ok(url) => spec_after_selfie_url(submission_id, kind, correlator, nfc_name, url@),
        },
        (
            ProcessingStateView::AwaitingNfcUrl { submission_id, selfie_url },
            ProcessingEvent::ViewUrlIssued(answer),
        ) => match answer {
            Err(cause) => spec_fail_with(ErrorKind::Storage, cause@),
            Ok(nfc_url) => spec_compare(submission_id, nfc_url@, selfie_url),
        },
        (
            ProcessingStateView::AwaitingApproved { submission_id, selfie_url },
            ProcessingEvent::ApprovedLookedUp(answer),
        ) => spec_after_approved(submission_id, selfie_url, answer),
        (
            ProcessingStateView::AwaitingPriorSelfieCheck {
                submission_id,
                selfie_url,
                prior_selfie_name,
            },
            ProcessingEvent::ObjectChecked(exists),
        ) => if exists {
            (
                ProcessingStateView::AwaitingPriorSelfieUrl { submission_id, selfie_url },
                ProcessingActionView::IssueViewUrl { object_name: prior_selfie_name },
            )
        } else {
            spec_fail(ErrorKind::SelfieMissing)
        },
        (
            ProcessingStateView::AwaitingPriorSelfieUrl { submission_id, selfie_url },
            ProcessingEvent::ViewUrlIssued(answer),
        ) => match answer {
            Err(cause) => spec_fail_with(ErrorKind::Storage, cause@),
            Ok(prior_url) => spec_compare(submission_id, prior_url@, selfie_url),
        },
        (
            ProcessingStateView::AwaitingComparison { submission_id },
            ProcessingEvent::Compared(answer),
        ) => match answer {
            Err(cause) => spec_fail_with(ErrorKind::ComparisonFailed, cause@),
            Ok(verdict) => (
                ProcessingStateView::AwaitingStatusUpdate { approved: verdict.is_match },
                ProcessingActionView::UpdateStatus {
                    submission_id,
                    status: SubmissionStatus::spec_from_verdict(verdict.is_match),
                },
            ),
        },
        (
            ProcessingStateView::AwaitingStatusUpdate { approved },
            ProcessingEvent::StatusUpdated(answer),
        ) => match answer {
            Err(cause) => spec_fail_with(ErrorKind::Persistence, cause@),
            Ok(_) => (
                ProcessingStateView::Finished,
                ProcessingActionView::Done {
                    outcome: Ok(SubmissionStatus::spec_from_verdict(approved).spec_name()),
                },
            ),
        },
        _ => spec_fail(ErrorKind::System),
    }
}

/// Ends the workflow in a failure with a fixed cause.
fn fail(kind: ErrorKind) -> (r: (ProcessingState, ProcessingAction))
    ensures
        (r.0@, r.1@) == spec_fail(kind),
{
    (ProcessingState::Finished, ProcessingAction::Done { outcome: Err(SubmissionError::of(kind)) })
}

/// Ends the workflow in the failure of a collaborator.
fn fail_with(kind: ErrorKind, cause: String) -> (r: (ProcessingState, ProcessingAction))
    ensures
        (r.0@, r.1@) == spec_fail_with(kind, cause@),
{
    (
        ProcessingState::Finished,
        ProcessingAction::Done { outcome: Err(SubmissionError::dependency(kind, cause)) },
    )
}

/// Asks for the comparison of `first` with `second`.
fn compare(submission_id: String, first: String, second: String) -> (r: (
    ProcessingState,
    ProcessingAction,
))
    ensures
        (r.0@, r.1@) == spec_compare(submission_id@, first@, second@),
{
    let correlation_id = submission_id.clone();
    (
        ProcessingState::AwaitingComparison { submission_id },
        ProcessingAction::CompareFaces { image_url_1: first, image_url_2: second, correlation_id },
    )
}

impl ProcessingState {
    /// Starts processing the submission with the given id. An id that is no
    /// UUID names no submission and fails at once; any other id is looked up.
    pub fn start(submission_id: String) -> (r: (ProcessingState, ProcessingAction))
        ensures
            (r.0@, r.1@) == spec_start(submission_id@),
    {
        if is_uuid_text(submission_id.as_str()) {
            let wanted = submission_id.clone();
            (
                ProcessingState::AwaitingSubmission { submission_id },
                ProcessingAction::FindSubmission { submission_id: wanted },
            )
        } else {
            fail(ErrorKind::NotFound)
        }
    }

    /// Whether the workflow has ended.
    pub fn is_finished(&self) -> (r: bool)
        ensures
            r == (self@ is Finished),
    {
        match self {
            ProcessingState::Finished => true,
            _ => false,
        }
    }

    /// Decides what follows the answer to the lookup by id: a store failure
    /// is reported, a missing row is not found, a document map that did not
    /// decode or is no object is invalid, a map without a selfie misses the
    /// selfie; otherwise the selfie's object is checked.
    pub fn after_submission(
        submission_id: String,
        answer: Result<Option<SubmissionRecord>, String>,
    ) -> (r: (ProcessingState, ProcessingAction))
        ensures
            (r.0@, r.1@) == spec_after_submission(submission_id@, answer),
    {
        match answer {
            Err(cause) => fail_with(ErrorKind::Persistence, cause),
            Ok(None) => fail(ErrorKind::NotFound),
            Ok(Some(record)) => {
                if !map_usable(&record.submission_data) {
                    return fail(ErrorKind::InvalidData);
                }
                match recorded_name(&record.submission_data, DocumentRole::Selfie) {
                    None => fail(ErrorKind::SelfieMissing),
                    Some(selfie_name) => {
                        let nfc_name = recorded_name(&record.submission_data, DocumentRole::Nfc);
                        let kind = SubmissionType::parse(record.submission_type.as_str());
                        let correlator = match record.nfc_identifier {
                            Some(c) => c,
                            None => String::new(),
                        };
                        let object_name = selfie_name.clone();
                        (
                            ProcessingState::AwaitingSelfieCheck {
                                submission_id,
                                kind,
                                correlator,
                                selfie_name,
                                nfc_name,
                            },
                            ProcessingAction::CheckObjectExists { object_name },
                        )
                    },
                }
            },
        }
    }

    /// Decides what follows the view URL of the selfie. An enrollment goes on
    /// with the chip image, or fails where none is recorded; a
    /// re-verification looks for the latest approved submission with the same
    /// correlator; any other type is invalid.
    pub fn after_selfie_url(
        submission_id: String,
        kind: Option<SubmissionType>,
        correlator: String,
        nfc_name: Option<String>,
        selfie_url: String,
    ) -> (r: (ProcessingState, ProcessingAction))
        ensures
            (r.0@, r.1@) == spec_after_selfie_url(
                submission_id@,
                kind,
                correlator@,
                optional_text(nfc_name),
                selfie_url@,
            ),
    {
        match kind {
            Some(SubmissionType::KYC) => match nfc_name {
                None => fail(ErrorKind::NfcMissing),
                Some(object_name) => (
                    ProcessingState::AwaitingNfcUrl { submission_id, selfie_url },
                    ProcessingAction::IssueViewUrl { object_name },
                ),
            },
            Some(SubmissionType::ON_DEMAND) => (
                ProcessingState::AwaitingApproved { submission_id, selfie_url },
                ProcessingAction::FindLatestByCorrelator {
                    correlator,
                    status: SubmissionStatus::Approved,
                },
            ),
            None => fail(ErrorKind::InvalidSubmissionType),
        }
    }

    /// Decides what follows the answer to the lookup of the latest approved
    /// submission: a store failure is reported, a missing row means that no
    /// approved submission shares the correlator, and the row's selfie is
    /// validated as the submission's own was.
    pub fn after_approved(
        submission_id: String,
        selfie_url: String,
        answer: Result<Option<ApprovedRecord>, String>,
    ) -> (r: (ProcessingState, ProcessingAction))
        ensures
            (r.0@, r.1@) == spec_after_approved(submission_id@, selfie_url@, answer),
    {
        match answer {
            Err(cause) => fail_with(ErrorKind::Persistence, cause),
            Ok(None) => fail(ErrorKind::SubmissionNotFound),
            Ok(Some(record)) => {
                if !map_usable(&record.submission_data) {
                    return fail(ErrorKind::InvalidData);
                }
                match recorded_name(&record.submission_data, DocumentRole::Selfie) {
                    None => fail(ErrorKind::SelfieMissing),
                    Some(prior_selfie_name) => {
                        let object_name = prior_selfie_name.clone();
                        (
                            ProcessingState::AwaitingPriorSelfieCheck {
                                submission_id,
                                selfie_url,
                                prior_selfie_name,
                            },
                            ProcessingAction::CheckObjectExists { object_name },
                        )
                    },
                }
            },
        }
    }

    /// Takes the answer to the call that the previous step asked for, and
    /// returns the next state with the next call or the outcome.
    pub fn step(self, event: ProcessingEvent) -> (r: (ProcessingState, ProcessingAction))
        ensures
            (r.0@, r.1@) == spec_step(self@, event),
    {
        match (self, event) {
            (
                ProcessingState::AwaitingSubmission { submission_id },
                ProcessingEvent::SubmissionLookedUp(answer),
            ) => Self::after_submission(submission_id, answer),
            (
                ProcessingState::AwaitingSelfieCheck {
                    submission_id,
                    kind,
                    correlator,
                    selfie_name,
                    nfc_name,
                },
                ProcessingEvent::ObjectChecked(exists),
            ) => {
                if exists {
                    (
                        ProcessingState::AwaitingSelfieUrl { submission_id, kind, correlator, nfc_name },
                        ProcessingAction::IssueViewUrl { object_name: selfie_name },
                    )
                } else {
                    fail(ErrorKind::SelfieMissing)
                }
            },
            (
                ProcessingState::AwaitingSelfieUrl { submission_id, kind, correlator, nfc_name },
                ProcessingEvent::ViewUrlIssued(answer),
            ) => match answer {
                Err(cause) => fail_with(ErrorKind::Storage, cause),
                Ok(url) => Self::after_selfie_url(submission_id, kind, correlator, nfc_name, url),
            },
            (
                ProcessingState::AwaitingNfcUrl { submission_id, selfie_url },
                ProcessingEvent::ViewUrlIssued(answer),
            ) => match answer {
                Err(cause) => fail_with(ErrorKind::Storage, cause),
                Ok(nfc_url) => compare(submission_id, nfc_url, selfie_url),
            },
            (
                ProcessingState::AwaitingApproved { submission_id, selfie_url },
                ProcessingEvent::ApprovedLookedUp(answer),
            ) => Self::after_approved(submission_id, selfie_url, answer),
            (
                ProcessingState::AwaitingPriorSelfieCheck {
                    submission_id,
                    selfie_url,
                    prior_selfie_name,
                },
                ProcessingEvent::ObjectChecked(exists),
            ) => {
                if exists {
                    (
                        ProcessingState::AwaitingPriorSelfieUrl { submission_id, selfie_url },
                        ProcessingAction::IssueViewUrl { object_name: prior_selfie_name },
                    )
                } else {
                    fail(ErrorKind::SelfieMissing)
                }
            },
            (
                ProcessingState::AwaitingPriorSelfieUrl { submission_id, selfie_url },
                ProcessingEvent::ViewUrlIssued(answer),
            ) => match answer {
                Err(cause) => fail_with(ErrorKind::Storage, cause),
                Ok(prior_url) => compare(submission_id, prior_url, selfie_url),
            },
            (
                ProcessingState::AwaitingComparison { submission_id },
                ProcessingEvent::Compared(answer),
            ) => match answer {
                Err(cause) => fail_with(ErrorKind::ComparisonFailed, cause),
                Ok(verdict) => (
                    ProcessingState::AwaitingStatusUpdate { approved: verdict.is_match },
                    ProcessingAction::UpdateStatus {
                        submission_id,
                        status: SubmissionStatus::from_verdict(verdict.is_match),
                    },
                ),
            },
            (
                ProcessingState::AwaitingStatusUpdate { approved },
                ProcessingEvent::StatusUpdated(answer),
            ) => match answer {
                Err(cause) => fail_with(ErrorKind::Persistence, cause),
                Ok(_) => {
                    let status = SubmissionStatus::from_verdict(approved);
                    (
                        ProcessingState::Finished,
                        ProcessingAction::Done {
                            outcome: Ok(
                                ProcessSubmissionResponse {
                                    submission_status: status.name().to_owned(),
                                },
                            ),
                        },
                    )
                },
            },
            _ => fail(ErrorKind::System),
        }
    }
}

} // verus!
