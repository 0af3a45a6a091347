//! Issuing upload credentials: from a request to a created submission.
//!
//! An enrollment is issued upload URLs for the identity card photo and the
//! selfie, a re-verification for the selfie alone. The chip image arrives
//! inline with the request; it is decoded and uploaded directly, and gets no
//! caller-facing URL. When every document has its stored object, one row is
//! created with the status `INITIATED`. Nothing that was done is undone when
//! a later call fails.

use vstd::prelude::*;
use crate::json::JsonValue;
use crate::payload::{decode_inline_image, spec_inline_image};
use crate::submissions::dto::presigned_urls_response::{
    record_views,
    Document,
    DocumentEntry,
    DocumentEntryView,
    DocumentRecord,
    DocumentRecordView,
    DocumentView,
    PresignedUrlsResponse,
    PresignedUrlsResponseView,
    SubmissionData,
    SubmissionDataView,
};
use crate::submissions::errors::{ErrorKind, SubmissionError, SubmissionErrorView};
use crate::submissions::submission_controller::SubmissionType;
use crate::submissions::vocabulary::{DocumentRole, SubmissionStatus};
use crate::text::{join, spec_truncate_chars, truncate_chars};

verus! {

/// The validity of an upload URL, in seconds.
pub const UPLOAD_URL_TTL_SECONDS: u64 = 600;

/// The number of characters of a correlator that are stored and looked up.
pub const CORRELATOR_LIMIT: usize = 500;

/// The validity of an upload URL as the answer spells it.
pub open spec fn spec_expiry_text() -> Seq<char> {
    "600"@
}

/// The content type that the chip image is uploaded with.
pub open spec fn spec_image_content_type() -> Seq<char> {
    "image/jpeg"@
}

/// The correlator as it is stored and looked up: its first
/// [`CORRELATOR_LIMIT`] characters.
pub open spec fn spec_normalize_correlator(correlator: Seq<char>) -> Seq<char> {
    spec_truncate_chars(correlator, CORRELATOR_LIMIT as nat)
}

/// The name of the stored object of a document: its identifier, then the
/// suffix of its role.
pub open spec fn spec_object_name(identifier: Seq<char>, role: DocumentRole) -> Seq<char> {
    identifier + role.spec_suffix()
}

/// Cuts a correlator to the length that is stored and looked up.
pub fn normalize_correlator(correlator: &str) -> (r: String)
    ensures
        r@ == spec_normalize_correlator(correlator@),
        r@.len() <= CORRELATOR_LIMIT,
{
    truncate_chars(correlator, CORRELATOR_LIMIT)
}

/// The name of the stored object of a document.
pub fn object_name(identifier: &str, role: DocumentRole) -> (r: String)
    ensures
        r@ == spec_object_name(identifier@, role),
{
    join(identifier, role.suffix())
}

/// The free-form payload that is stored with a submission. It is a
/// placeholder for inputs to come and holds nothing yet.
#[derive(Debug, Clone, Copy, PartialEq, Eq, Structural)]
pub struct RequestPayload {}

impl RequestPayload {
    /// The JSON form of the payload: an object without members.
    pub fn json(&self) -> (r: JsonValue)
        ensures
            r matches JsonValue::Object(members) && members@.len() == 0,
    {
        JsonValue::empty_object()
    }
}

/// A request for upload credentials.
#[derive(Debug, Clone, PartialEq, Eq)]
pub struct IssuanceRequest {
    /// The session the request was made in; not interpreted.
    pub session_id: String,
    /// The actor the request was made by; not interpreted.
    pub user_id: String,
    pub submission_type: SubmissionType,
    /// The identifier that links submissions of one physical credential.
    pub correlator: String,
    /// The chip image: base64 text, possibly behind a data-URI marker.
    pub nfc_payload: String,
}

/// The view of an [`IssuanceRequest`].
pub struct IssuanceRequestView {
    pub session_id: Seq<char>,
    pub user_id: Seq<char>,
    pub submission_type: SubmissionType,
    pub correlator: Seq<char>,
    pub nfc_payload: Seq<char>,
}

impl View for IssuanceRequest {
    type V = IssuanceRequestView;

    open spec fn view(&self) -> IssuanceRequestView {
        IssuanceRequestView {
            session_id: self.session_id@,
            user_id: self.user_id@,
            submission_type: self.submission_type,
            correlator: self.correlator@,
            nfc_payload: self.nfc_payload@,
        }
    }
}

/// The identifiers of one issuance: of the submission and of each document.
/// The identity card photo's is unused in a re-verification.
#[derive(Debug, Clone, PartialEq, Eq)]
pub struct IssuanceIds {
    pub submission_id: String,
    pub ktp_id: String,
    pub selfie_id: String,
    pub nfc_id: String,
}

/// The view of an [`IssuanceIds`].
pub struct IssuanceIdsView {
    pub submission_id: Seq<char>,
    pub ktp_id: Seq<char>,
    pub selfie_id: Seq<char>,
    pub nfc_id: Seq<char>,
}

impl View for IssuanceIds {
    type V = IssuanceIdsView;

    open spec fn view(&self) -> IssuanceIdsView {
        IssuanceIdsView {
            submission_id: self.submission_id@,
            ktp_id: self.ktp_id@,
            selfie_id: self.selfie_id@,
            nfc_id: self.nfc_id@,
        }
    }
}

impl IssuanceIdsView {
    /// The identifier of the document of `role`.
    pub open spec fn of(self, role: DocumentRole) -> Seq<char> {
        match role {
            DocumentRole::Ktp => self.ktp_id,
            DocumentRole::Selfie => self.selfie_id,
            DocumentRole::Nfc => self.nfc_id,
        }
    }
}

/// What an issuance works from: the request with its correlator cut to
/// length, and the identifiers drawn for it.
#[derive(Debug, Clone, PartialEq, Eq)]
pub struct IssuancePlan {
    pub ids: IssuanceIds,
    pub session_id: String,
    pub user_id: String,
    pub submission_type: SubmissionType,
    pub correlator: String,
    pub nfc_payload: String,
}

/// The view of an [`IssuancePlan`].
pub struct IssuancePlanView {
    pub ids: IssuanceIdsView,
    pub session_id: Seq<char>,
    pub user_id: Seq<char>,
    pub submission_type: SubmissionType,
    pub correlator: Seq<char>,
    pub nfc_payload: Seq<char>,
}

impl View for IssuancePlan {
    type V = IssuancePlanView;

    open spec fn view(&self) -> IssuancePlanView {
        IssuancePlanView {
            ids: self.ids@,
            session_id: self.session_id@,
            user_id: self.user_id@,
            submission_type: self.submission_type,
            correlator: self.correlator@,
            nfc_payload: self.nfc_payload@,
        }
    }
}

/// The plan of an issuance for `request` with the identifiers `ids`.
pub open spec fn spec_plan(request: IssuanceRequestView, ids: IssuanceIdsView) -> IssuancePlanView {
    IssuancePlanView {
        ids,
        session_id: request.session_id,
        user_id: request.user_id,
        submission_type: request.submission_type,
        correlator: spec_normalize_correlator(request.correlator),
        nfc_payload: request.nfc_payload,
    }
}

/// The roles that a caller of the given type is issued an upload URL for.
pub open spec fn spec_issued_roles(submission_type: SubmissionType) -> Seq<DocumentRole> {
    match submission_type {
        SubmissionType::KYC => seq![DocumentRole::Ktp, DocumentRole::Selfie],
        SubmissionType::ON_DEMAND => seq![DocumentRole::Selfie],
    }
}

/// The roles that the row of a submission of the given type records.
pub open spec fn spec_recorded_roles(submission_type: SubmissionType) -> Seq<DocumentRole> {
    match submission_type {
        SubmissionType::KYC => seq![DocumentRole::Ktp, DocumentRole::Selfie, DocumentRole::Nfc],
        SubmissionType::ON_DEMAND => seq![DocumentRole::Selfie, DocumentRole::Nfc],
    }
}

/// The upload credential of the document of `role` at `url`.
pub open spec fn spec_entry(ids: IssuanceIdsView, role: DocumentRole, url: Seq<char>) -> DocumentEntryView {
    DocumentEntryView {
        role,
        document: DocumentView {
            document_url: url,
            document_reference: ids.of(role),
            expiry_in_seconds: spec_expiry_text(),
        },
    }
}

/// What the row records of the document of `role`.
pub open spec fn spec_record(ids: IssuanceIdsView, role: DocumentRole) -> DocumentRecordView {
    DocumentRecordView {
        role,
        data: SubmissionDataView {
            document_name: spec_object_name(ids.of(role), role),
            document_reference: ids.of(role),
        },
    }
}

/// The document map of the row: one record per recorded role.
pub open spec fn spec_records(plan: IssuancePlanView) -> Seq<DocumentRecordView> {
    spec_recorded_roles(plan.submission_type).map_values(|role: DocumentRole| spec_record(plan.ids, role))
}

/// The answer of a completed issuance: the submission's id, and one upload
/// credential per issued role.
pub open spec fn spec_response(
    plan: IssuancePlanView,
    ktp_url: Seq<char>,
    selfie_url: Seq<char>,
) -> PresignedUrlsResponseView {
    PresignedUrlsResponseView {
        submission_id: plan.ids.submission_id,
        documents: match plan.submission_type {
            SubmissionType::KYC => seq![
                spec_entry(plan.ids, DocumentRole::Ktp, ktp_url),
                spec_entry(plan.ids, DocumentRole::Selfie, selfie_url),
            ],
            SubmissionType::ON_DEMAND => seq![spec_entry(plan.ids, DocumentRole::Selfie, selfie_url)],
        },
    }
}

/// The answer to the call that the previous step asked for. A failure of a
/// collaborator carries its diagnostic text.
#[derive(Debug, PartialEq, Eq)]
pub enum IssuanceEvent {
    /// The object store's answer to the request for an upload URL.
    UploadUrlIssued(Result<String, String>),
    /// The object store's answer to the direct upload.
    ObjectUploaded(Result<(), String>),
    /// The submission store's answer to the creation of the row.
    SubmissionCreated(Result<(), String>),
}

/// The call to make next, or the outcome.
#[derive(Debug, PartialEq, Eq)]
pub enum IssuanceAction {
    /// Ask the object store for a URL to upload the object to.
    IssueUploadUrl { object_name: String, ttl_seconds: u64 },
    /// Upload the bytes to the object store under the name.
    UploadObject { object_name: String, content: Vec<u8>, content_type: String },
    /// Create the submission row.
    CreateSubmission {
        submission_id: String,
        submission_type: SubmissionType,
        session_id: String,
        user_id: String,
        status: SubmissionStatus,
        documents: Vec<DocumentRecord>,
        request_payload: RequestPayload,
        correlator: String,
    },
    /// The workflow has ended.
    Done { outcome: Result<PresignedUrlsResponse, SubmissionError> },
}

/// The view of an [`IssuanceAction`].
pub enum IssuanceActionView {
    IssueUploadUrl { object_name: Seq<char>, ttl_seconds: u64 },
    UploadObject { object_name: Seq<char>, content: Seq<u8>, content_type: Seq<char> },
    CreateSubmission {
        submission_id: Seq<char>,
        submission_type: SubmissionType,
        session_id: Seq<char>,
        user_id: Seq<char>,
        status: SubmissionStatus,
        documents: Seq<DocumentRecordView>,
        request_payload: RequestPayload,
        correlator: Seq<char>,
    },
    Done { outcome: Result<PresignedUrlsResponseView, SubmissionErrorView> },
}

impl View for IssuanceAction {
    type V = IssuanceActionView;

    open spec fn view(&self) -> IssuanceActionView {
        match self {
            IssuanceAction::IssueUploadUrl { object_name, ttl_seconds } => IssuanceActionView::IssueUploadUrl {
                object_name: object_name@,
                ttl_seconds: *ttl_seconds,
            },
            IssuanceAction::UploadObject {
                object_name,
                content,
                content_type,
            } => IssuanceActionView::UploadObject {
                object_name: object_name@,
                content: content@,
                content_type: content_type@,
            },
            IssuanceAction::CreateSubmission {
                submission_id,
                submission_type,
                session_id,
                user_id,
                status,
                documents,
                request_payload,
                correlator,
            } => IssuanceActionView::CreateSubmission {
                submission_id: submission_id@,
                submission_type: *submission_type,
                session_id: session_id@,
                user_id: user_id@,
                status: *status,
                documents: record_views(documents@),
                request_payload: *request_payload,
                correlator: correlator@,
            },
            IssuanceAction::Done { outcome } => IssuanceActionView::Done {
                outcome: match outcome {
                    Ok(response) => Ok(response@),
                    Err(error) => Err(error@),
                },
            },
        }
    }
}

/// Where the workflow stands: which answer it waits for, and the URLs issued
/// so far. The URL of the identity card photo is empty in a re-verification,
/// which is issued none.
#[derive(Debug, PartialEq, Eq)]
pub enum IssuanceState {
    /// Waits for the upload URL of the identity card photo.
    AwaitingKtpUrl { plan: IssuancePlan },
    /// Waits for the upload URL of the selfie.
    AwaitingSelfieUrl { plan: IssuancePlan, ktp_url: String },
    /// Waits for the upload of the chip image.
    AwaitingNfcUpload { plan: IssuancePlan, ktp_url: String, selfie_url: String },
    /// Waits for the creation of the row.
    AwaitingCreation { plan: IssuancePlan, ktp_url: String, selfie_url: String },
    /// The workflow has ended.
    Finished,
}

/// The view of an [`IssuanceState`].
pub enum IssuanceStateView {
    AwaitingKtpUrl { plan: IssuancePlanView },
    AwaitingSelfieUrl { plan: IssuancePlanView, ktp_url: Seq<char> },
    AwaitingNfcUpload { plan: IssuancePlanView, ktp_url: Seq<char>, selfie_url: Seq<char> },
    AwaitingCreation { plan: IssuancePlanView, ktp_url: Seq<char>, selfie_url: Seq<char> },
    Finished,
}

impl View for IssuanceState {
    type V = IssuanceStateView;

    open spec fn view(&self) -> IssuanceStateView {
        match self {
            IssuanceState::AwaitingKtpUrl { plan } => IssuanceStateView::AwaitingKtpUrl { plan: plan@ },
            IssuanceState::AwaitingSelfieUrl { plan, ktp_url } => IssuanceStateView::AwaitingSelfieUrl {
                plan: plan@,
                ktp_url: ktp_url@,
            },
            IssuanceState::AwaitingNfcUpload {
                plan,
                ktp_url,
                selfie_url,
            } => IssuanceStateView::AwaitingNfcUpload {
                plan: plan@,
                ktp_url: ktp_url@,
                selfie_url: selfie_url@,
            },
            IssuanceState::AwaitingCreation {
                plan,
                ktp_url,
                selfie_url,
            } => IssuanceStateView::AwaitingCreation {
                plan: plan@,
                ktp_url: ktp_url@,
                selfie_url: selfie_url@,
            },
            IssuanceState::Finished => IssuanceStateView::Finished,
        }
    }
}

/// The end of the workflow in a failure with a fixed cause.
pub open spec fn spec_fail(kind: ErrorKind) -> (IssuanceStateView, IssuanceActionView) {
    (IssuanceStateView::Finished, IssuanceActionView::Done { outcome: Err(SubmissionErrorView::of(kind)) })
}

/// The end of the workflow in the failure of a collaborator.
pub open spec fn spec_fail_with(kind: ErrorKind, cause: Seq<char>) -> (
    IssuanceStateView,
    IssuanceActionView,
) {
    (
        IssuanceStateView::Finished,
        IssuanceActionView::Done { outcome: Err(SubmissionErrorView::dependency(kind, cause)) },
    )
}

/// The request for the upload URL of the document of `role`.
pub open spec fn spec_ask_upload_url(plan: IssuancePlanView, role: DocumentRole) -> IssuanceActionView {
    IssuanceActionView::IssueUploadUrl {
        object_name: spec_object_name(plan.ids.of(role), role),
        ttl_seconds: UPLOAD_URL_TTL_SECONDS,
    }
}

/// How the workflow starts: an enrollment asks for the upload URL of the
/// identity card photo, a re-verification for that of the selfie.
pub open spec fn spec_start(plan: IssuancePlanView) -> (IssuanceStateView, IssuanceActionView) {
    match plan.submission_type {
        SubmissionType::KYC => (
            IssuanceStateView::AwaitingKtpUrl { plan },
            spec_ask_upload_url(plan, DocumentRole::Ktp),
        ),
        SubmissionType::ON_DEMAND => (
            IssuanceStateView::AwaitingSelfieUrl { plan, ktp_url: Seq::empty() },
            spec_ask_upload_url(plan, DocumentRole::Selfie),
        ),
    }
}

/// What follows the decoding of the chip image once the selfie has its URL:
/// a payload that does not decode is invalid, the bytes of one that does are
/// uploaded as a JPEG image.
pub open spec fn spec_after_decoding(
    plan: IssuancePlanView,
    ktp_url: Seq<char>,
    selfie_url: Seq<char>,
    decoded: Option<Seq<u8>>,
) -> (IssuanceStateView, IssuanceActionView) {
    match decoded {
        None => spec_fail(ErrorKind::InvalidPayload),
        Some(content) => (
            IssuanceStateView::AwaitingNfcUpload { plan, ktp_url, selfie_url },
            IssuanceActionView::UploadObject {
                object_name: spec_object_name(plan.ids.nfc_id, DocumentRole::Nfc),
                content,
                content_type: spec_image_content_type(),
            },
        ),
    }
}

/// The creation of the row of the submission.
pub open spec fn spec_create(plan: IssuancePlanView) -> IssuanceActionView {
    IssuanceActionView::CreateSubmission {
        submission_id: plan.ids.submission_id,
        submission_type: plan.submission_type,
        session_id: plan.session_id,
        user_id: plan.user_id,
        status: SubmissionStatus::Initiated,
        documents: spec_records(plan),
        request_payload: RequestPayload {  },
        correlator: plan.correlator,
    }
}

/// The step of the workflow: the state after `event`, and the next call or
/// the outcome. An answer that the state does not wait for ends the workflow
/// in a system failure.
pub open spec fn spec_step(state: IssuanceStateView, event: IssuanceEvent) -> (
    IssuanceStateView,
    IssuanceActionView,
) {
    match (state, event) {
        (IssuanceStateView::AwaitingKtpUrl { plan }, IssuanceEvent::UploadUrlIssued(answer)) => match answer {
            Err(cause) => spec_fail_with(ErrorKind::Storage, cause@),
            Ok(url) => (
                IssuanceStateView::AwaitingSelfieUrl { plan, ktp_url: url@ },
                spec_ask_upload_url(plan, DocumentRole::Selfie),
            ),
        },
        (
            IssuanceStateView::AwaitingSelfieUrl { plan, ktp_url },
            IssuanceEvent::UploadUrlIssued(answer),
        ) => match answer {
            Err(cause) => spec_fail_with(ErrorKind::Storage, cause@),
            Ok(url) => spec_after_decoding(plan, ktp_url, url@, spec_inline_image(plan.nfc_payload)),
        },
        (
            IssuanceStateView::AwaitingNfcUpload { plan, ktp_url, selfie_url },
            IssuanceEvent::ObjectUploaded(answer),
        ) => match answer {
            Err(cause) => spec_fail_with(ErrorKind::Storage, cause@),
            Ok(_) => (
                IssuanceStateView::AwaitingCreation { plan, ktp_url, selfie_url },
                spec_create(plan),
            ),
        },
        (
            IssuanceStateView::AwaitingCreation { plan, ktp_url, selfie_url },
            IssuanceEvent::SubmissionCreated(answer),
        ) => match answer {
            Err(cause) => spec_fail_with(ErrorKind::Persistence, cause@),
            Ok(_) => (
                IssuanceStateView::Finished,
                IssuanceActionView::Done { outcome: Ok(spec_response(plan, ktp_url, selfie_url)) },
            ),
        },
        _ => spec_fail(ErrorKind::System),
    }
}

/// Ends the workflow in a failure with a fixed cause.
fn fail(kind: ErrorKind) -> (r: (IssuanceState, IssuanceAction))
    ensures
        (r.0@, r.1@) == spec_fail(kind),
{
    (IssuanceState::Finished, IssuanceAction::Done { outcome: Err(SubmissionError::of(kind)) })
}

/// Ends the workflow in the failure of a collaborator.
fn fail_with(kind: ErrorKind, cause: String) -> (r: (IssuanceState, IssuanceAction))
    ensures
        (r.0@, r.1@) == spec_fail_with(kind, cause@),
{
    (
        IssuanceState::Finished,
        IssuanceAction::Done { outcome: Err(SubmissionError::dependency(kind, cause)) },
    )
}

impl IssuanceIds {
    /// The identifier of the document of `role`.
    pub fn of(&self, role: DocumentRole) -> (r: &String)
        ensures
            r@ == self@.of(role),
    {
        match role {
            DocumentRole::Ktp => &self.ktp_id,
            DocumentRole::Selfie => &self.selfie_id,
            DocumentRole::Nfc => &self.nfc_id,
        }
    }
}

impl IssuancePlan {
    /// The plan of an issuance for `request` with the identifiers `ids`.
    pub fn new(request: IssuanceRequest, ids: IssuanceIds) -> (r: IssuancePlan)
        ensures
            r@ == spec_plan(request@, ids@),
    {
        let correlator = normalize_correlator(request.correlator.as_str());
        IssuancePlan {
            ids,
            session_id: request.session_id,
            user_id: request.user_id,
            submission_type: request.submission_type,
            correlator,
            nfc_payload: request.nfc_payload,
        }
    }

    /// The request for the upload URL of the document of `role`.
    fn ask_upload_url(&self, role: DocumentRole) -> (r: IssuanceAction)
        ensures
            r@ == spec_ask_upload_url(self@, role),
    {
        IssuanceAction::IssueUploadUrl {
            object_name: object_name(self.ids.of(role).as_str(), role),
            ttl_seconds: UPLOAD_URL_TTL_SECONDS,
        }
    }

    /// The upload credential of the document of `role` at `url`.
    fn entry(&self, role: DocumentRole, url: String) -> (r: DocumentEntry)
        ensures
            r@ == spec_entry(self@.ids, role, url@),
    {
        DocumentEntry {
            role,
            document: Document {
                document_url: url,
                document_reference: self.ids.of(role).clone(),
                expiry_in_seconds: "600".to_owned(),
            },
        }
    }

    /// What the row records of the document of `role`.
    fn record(&self, role: DocumentRole) -> (r: DocumentRecord)
        ensures
            r@ == spec_record(self@.ids, role),
    {
        let identifier = self.ids.of(role);
        DocumentRecord {
            role,
            data: SubmissionData {
                document_name: object_name(identifier.as_str(), role),
                document_reference: identifier.clone(),
            },
        }
    }

    /// The document map of the row: one record per recorded role.
    pub fn records(&self) -> (r: Vec<DocumentRecord>)
        ensures
            record_views(r@) == spec_records(self@),
    {
        let mut records: Vec<DocumentRecord> = Vec::new();
        match self.submission_type {
            SubmissionType::KYC => {
                records.push(self.record(DocumentRole::Ktp));
            },
            SubmissionType::ON_DEMAND => {},
        }
        records.push(self.record(DocumentRole::Selfie));
        records.push(self.record(DocumentRole::Nfc));
        assert(record_views(records@) =~= spec_records(self@));
        records
    }

    /// The creation of the row of the submission.
    fn create(&self) -> (r: IssuanceAction)
        ensures
            r@ == spec_create(self@),
    {
        IssuanceAction::CreateSubmission {
            submission_id: self.ids.submission_id.clone(),
            submission_type: self.submission_type,
            session_id: self.session_id.clone(),
            user_id: self.user_id.clone(),
            status: SubmissionStatus::Initiated,
            documents: self.records(),
            request_payload: RequestPayload {  },
            correlator: self.correlator.clone(),
        }
    }

    /// The answer of the completed issuance.
    fn response(&self, ktp_url: String, selfie_url: String) -> (r: PresignedUrlsResponse)
        ensures
            r@ == spec_response(self@, ktp_url@, selfie_url@),
    {
        let mut documents: Vec<DocumentEntry> = Vec::new();
        match self.submission_type {
            SubmissionType::KYC => {
                documents.push(self.entry(DocumentRole::Ktp, ktp_url));
            },
            SubmissionType::ON_DEMAND => {},
        }
        documents.push(self.entry(DocumentRole::Selfie, selfie_url));
        let response = PresignedUrlsResponse {
            submission_id: self.ids.submission_id.clone(),
            documents,
        };
        assert(response@.documents =~= spec_response(self@, ktp_url@, selfie_url@).documents);
        response
    }
}

impl IssuanceState {
    /// Starts an issuance from its plan.
    pub fn start(plan: IssuancePlan) -> (r: (IssuanceState, IssuanceAction))
        ensures
            (r.0@, r.1@) == spec_start(plan@),
    {
        match plan.submission_type {
            SubmissionType::KYC => {
                let action = plan.ask_upload_url(DocumentRole::Ktp);
                (IssuanceState::AwaitingKtpUrl { plan }, action)
            },
            SubmissionType::ON_DEMAND => {
                let action = plan.ask_upload_url(DocumentRole::Selfie);
                (IssuanceState::AwaitingSelfieUrl { plan, ktp_url: String::new() }, action)
            },
        }
    }

    /// Whether the workflow has ended.
    pub fn is_finished(&self) -> (r: bool)
        ensures
            r == (self@ is Finished),
    {
        match self {
            IssuanceState::Finished => true,
            _ => false,
        }
    }

    /// Decides what follows the decoding of the chip image: without bytes the
    /// payload is invalid; with bytes they are uploaded under the chip
    /// image's object name as a JPEG image.
    pub fn after_decoding(
        plan: IssuancePlan,
        ktp_url: String,
        selfie_url: String,
        decoded: Option<Vec<u8>>,
    ) -> (r: (IssuanceState, IssuanceAction))
        ensures
            (r.0@, r.1@) == spec_after_decoding(
                plan@,
                ktp_url@,
                selfie_url@,
                match decoded {
                    Some(bytes) => Some(bytes@),
                    None => None,
                },
            ),
    {
        match decoded {
            None => fail(ErrorKind::InvalidPayload),
            Some(content) => {
                let action = IssuanceAction::UploadObject {
                    object_name: object_name(plan.ids.nfc_id.as_str(), DocumentRole::Nfc),
                    content,
                    content_type: "image/jpeg".to_owned(),
                };
                (IssuanceState::AwaitingNfcUpload { plan, ktp_url, selfie_url }, action)
            },
        }
    }

    /// Takes the answer to the call that the previous step asked for, and
    /// returns the next state with the next call or the outcome.
    pub fn step(self, event: IssuanceEvent) -> (r: (IssuanceState, IssuanceAction))
        ensures
            (r.0@, r.1@) == spec_step(self@, event),
    {
        match (self, event) {
            (IssuanceState::AwaitingKtpUrl { plan }, IssuanceEvent::UploadUrlIssued(answer)) => match answer {
                Err(cause) => fail_with(ErrorKind::Storage, cause),
                Ok(url) => {
                    let action = plan.ask_upload_url(DocumentRole::Selfie);
                    (IssuanceState::AwaitingSelfieUrl { plan, ktp_url: url }, action)
                },
            },
            (
                IssuanceState::AwaitingSelfieUrl { plan, ktp_url },
                IssuanceEvent::UploadUrlIssued(answer),
            ) => match answer {
                Err(cause) => fail_with(ErrorKind::Storage, cause),
                Ok(url) => {
                    let decoded = decode_inline_image(plan.nfc_payload.as_str());
                    Self::after_decoding(plan, ktp_url, url, decoded)
                },
            },
            (
                IssuanceState::AwaitingNfcUpload { plan, ktp_url, selfie_url },
                IssuanceEvent::ObjectUploaded(answer),
            ) => match answer {
                Err(cause) => fail_with(ErrorKind::Storage, cause),
                Ok(_) => {
                    let action = plan.create();
                    (IssuanceState::AwaitingCreation { plan, ktp_url, selfie_url }, action)
                },
            },
            (
                IssuanceState::AwaitingCreation { plan, ktp_url, selfie_url },
                IssuanceEvent::SubmissionCreated(answer),
            ) => match answer {
                Err(cause) => fail_with(ErrorKind::Persistence, cause),
                Ok(_) => {
                    let response = plan.response(ktp_url, selfie_url);
                    (IssuanceState::Finished, IssuanceAction::Done { outcome: Ok(response) })
                },
            },
            _ => fail(ErrorKind::System),
        }
    }
}

} // verus!
