//! The request and answer shapes of the submission endpoints, and the choice
//! of the answer's status.

use vstd::prelude::*;
use crate::http::{HttpStatus, Reply};
use crate::models::user::{
    api_error_views,
    spec_any_code,
    spec_error_entity,
    ApiError,
    ApiErrorView,
    ApiResponse,
};
use crate::submissions::dto::presigned_urls_response::PresignedUrlsResponse;
use crate::submissions::errors::{
    lemma_code_tells_category,
    spec_not_found_code,
    spec_validation_code,
    ErrorCategory,
    SubmissionError,
    SubmissionErrorView,
};
use crate::text::{join, same_text};

verus! {

/// The mode of a submission.
#[allow(non_camel_case_types)]
#[derive(Debug, Clone, Copy, PartialEq, Eq, Structural)]
pub enum SubmissionType {
    /// Full enrollment: identity card photo, selfie and chip image.
    KYC,
    /// Re-verification: a selfie, matched against an approved enrollment.
    ON_DEMAND,
}

impl SubmissionType {
    /// The spelling of the type in the submission store and in requests.
    pub open spec fn spec_name(self) -> Seq<char> {
        match self {
            SubmissionType::KYC => "KYC"@,
            SubmissionType::ON_DEMAND => "ON_DEMAND"@,
        }
    }

    /// The type that a text spells, if it spells one.
    pub open spec fn spec_parse(text: Seq<char>) -> Option<SubmissionType> {
        if text == "KYC"@ {
            Some(SubmissionType::KYC)
        } else if text == "ON_DEMAND"@ {
            Some(SubmissionType::ON_DEMAND)
        } else {
            None
        }
    }

    /// The spelling of the type.
    pub fn as_str(&self) -> (r: &'static str)
        ensures
            r@ == self.spec_name(),
    {
        match self {
            SubmissionType::KYC => "KYC",
            SubmissionType::ON_DEMAND => "ON_DEMAND",
        }
    }

    /// The spelling of the type, as an owned string.
    pub fn to_string(&self) -> (r: String)
        ensures
            r@ == self.spec_name(),
    {
        self.as_str().to_owned()
    }

    /// Reads a type from its spelling.
    pub fn parse(text: &str) -> (r: Option<SubmissionType>)
        ensures
            r == Self::spec_parse(text@),
    {
        if same_text(text, "KYC") {
            Some(SubmissionType::KYC)
        } else if same_text(text, "ON_DEMAND") {
            Some(SubmissionType::ON_DEMAND)
        } else {
            None
        }
    }
}

/// Reading the spelling of a type gives the type back.
pub proof fn lemma_submission_type_round_trip(t: SubmissionType)
    ensures
        SubmissionType::spec_parse(t.spec_name()) == Some(t),
{
    reveal_strlit("KYC");
    reveal_strlit("ON_DEMAND");
    assert("KYC"@.len() != "ON_DEMAND"@.len());
}

/// The body of a request for upload credentials.
#[derive(Debug, Clone, PartialEq, Eq)]
pub struct PresignedUrlsBody {
    pub submission_type: SubmissionType,
    pub nfc_identifier: String,
}

/// The body of a direct comparison request.
#[derive(Debug, Clone, PartialEq, Eq)]
pub struct FaceMatchBody {
    pub image1_url: String,
    pub image2_url: String,
    pub submission_id: String,
}

/// The body of a request to process a submission.
#[derive(Debug, Clone, PartialEq, Eq)]
pub struct ProcessSubmissionBody {
    pub submission_id: String,
}

/// The query of a status inquiry.
#[derive(Debug, Clone, PartialEq, Eq)]
pub struct GetSubmissionStatusQuery {
    pub submission_type: String,
    pub nfc_identifier: String,
}

/// The answer to processing: the status the submission ended in.
#[derive(Debug, Clone, PartialEq, Eq)]
pub struct ProcessSubmissionResponse {
    pub submission_status: String,
}

impl View for ProcessSubmissionResponse {
    type V = Seq<char>;

    open spec fn view(&self) -> Seq<char> {
        self.submission_status@
    }
}

/// The answer to a status inquiry: the caller-facing verdict.
#[derive(Debug, Clone, PartialEq, Eq)]
pub struct GetSubmissionStatusResponse {
    pub submission_status: String,
}

impl View for GetSubmissionStatusResponse {
    type V = Seq<char>;

    open spec fn view(&self) -> Seq<char> {
        self.submission_status@
    }
}

/// The code of a request that cannot be read.
pub open spec fn spec_invalid_request_code() -> Seq<char> {
    "1003"@
}

/// The code of a failed comparison.
pub open spec fn spec_comparison_failed_code() -> Seq<char> {
    "1006"@
}

/// What precedes the detail in the cause of a request that cannot be read.
pub open spec fn spec_invalid_body_prefix() -> Seq<char> {
    "INVALID_REQUEST_BODY: "@
}

/// The cause of an inquiry for a type that is none.
pub open spec fn spec_invalid_type_cause() -> Seq<char> {
    "INVALID_SUBMISSION_TYPE"@
}

/// The status that a failure of the given class is answered with: a bad
/// request for a validation failure, unprocessable for something that does
/// not exist, a server error for the failure of a collaborator.
pub open spec fn spec_status_of(category: ErrorCategory) -> HttpStatus {
    match category {
        ErrorCategory::Validation => HttpStatus::BadRequest,
        ErrorCategory::NotFound => HttpStatus::UnprocessableEntity,
        ErrorCategory::Dependency => HttpStatus::InternalServerError,
    }
}

/// The status that a list of errors is answered with, chosen from their
/// codes: unprocessable where some error carries the not-found code,
/// otherwise a bad request where some error carries the validation code,
/// otherwise a server error.
pub open spec fn spec_failure_status(errors: Seq<ApiError>) -> HttpStatus {
    if spec_any_code(errors, spec_not_found_code()) {
        HttpStatus::UnprocessableEntity
    } else if spec_any_code(errors, spec_validation_code()) {
        HttpStatus::BadRequest
    } else {
        HttpStatus::InternalServerError
    }
}

/// Whether `reply` is the answer to the failure `error`: its status is the
/// one of the failure's class, and its one error reports the failure.
pub open spec fn spec_is_failure_reply<T>(reply: Reply<T>, error: SubmissionErrorView) -> bool {
    &&& reply.status == spec_status_of(error.kind.spec_category())
    &&& !reply.body.success
    &&& reply.body.data is None
    &&& reply.body.errors matches Some(errors) && api_error_views(errors@) == seq![error.api_error()]
}

/// Whether `reply` is the answer that carries `response`.
pub open spec fn spec_is_success_reply<T>(reply: Reply<T>, response: T) -> bool {
    &&& reply.status == HttpStatus::Success
    &&& reply.body.success
    &&& reply.body.data == Some(response)
    &&& reply.body.errors is None
}

/// Whether some error of the list carries `code`.
pub fn any_code(errors: &Vec<ApiError>, code: &str) -> (r: bool)
    ensures
        r == spec_any_code(errors@, code@),
{
    let mut i: usize = 0;
    while i < errors.len()
        invariant
            i <= errors@.len(),
            forall|j: int| 0 <= j < i ==> (#[trigger] errors@[j]).code@ != code@,
        decreases errors@.len() - i,
    {
        if same_text(errors[i].code.as_str(), code) {
            return true;
        }
        i += 1;
    }
    false
}

/// The status that a list of errors is answered with, chosen from their codes.
pub fn failure_status(errors: &Vec<ApiError>) -> (r: HttpStatus)
    ensures
        r == spec_failure_status(errors@),
{
    if any_code(errors, "1004") {
        HttpStatus::UnprocessableEntity
    } else if any_code(errors, "1003") {
        HttpStatus::BadRequest
    } else {
        HttpStatus::InternalServerError
    }
}

/// The failed answer with the given status and the one given error.
fn failure<T>(status: HttpStatus, error: ApiError) -> (r: Reply<T>)
    ensures
        r.status == status,
        !r.body.success,
        r.body.data is None,
        r.body.errors matches Some(errors) && api_error_views(errors@) == seq![error@],
{
    let mut errors: Vec<ApiError> = Vec::new();
    errors.push(error);
    assert(api_error_views(errors@) =~= seq![error@]);
    Reply { status, body: ApiResponse::failed(errors) }
}

/// The answer to a failure of a workflow: the status is chosen from the
/// code of the error that reports it, which tells the failure's class.
pub fn failure_reply<T>(error: &SubmissionError) -> (r: Reply<T>)
    ensures
        spec_is_failure_reply(r, error@),
{
    let errors = error.api_errors();
    let status = failure_status(&errors);
    proof {
        lemma_code_tells_category(error@.kind);
        assert(api_error_views(errors@).len() == errors@.len());
        assert(api_error_views(errors@)[0] == errors@[0]@);
        assert(errors@[0].code@ == error@.kind.spec_code());
    }
    Reply { status, body: ApiResponse::failed(errors) }
}

/// The answer to a request whose body cannot be read: a bad request that
/// reports the reader's complaint.
pub fn invalid_request_body<T>(detail: &str) -> (r: Reply<T>)
    ensures
        r.status == HttpStatus::BadRequest,
        !r.body.success,
        r.body.data is None,
        r.body.errors matches Some(errors) && api_error_views(errors@) == seq![
            ApiErrorView {
                entity: spec_error_entity(),
                code: spec_invalid_request_code(),
                cause: spec_invalid_body_prefix() + detail@,
            },
        ],
{
    failure(HttpStatus::BadRequest, ApiError::new("1003", join("INVALID_REQUEST_BODY: ", detail)))
}

/// The answer to a request for upload credentials: the credentials, or the
/// failure with the status of its class.
pub fn presigned_urls_reply(outcome: Result<PresignedUrlsResponse, SubmissionError>) -> (r: Reply<
    PresignedUrlsResponse,
>)
    ensures
        match outcome {
            Ok(response) => spec_is_success_reply(r, response),
            Err(error) => spec_is_failure_reply(r, error@),
        },
{
    match outcome {
        Ok(response) => Reply { status: HttpStatus::Success, body: ApiResponse::succeeded(response) },
        Err(error) => failure_reply(&error),
    }
}

/// The answer to processing: the status reached, or the failure with the
/// status of its class.
pub fn process_submission_reply(outcome: Result<ProcessSubmissionResponse, SubmissionError>) -> (r:
    Reply<ProcessSubmissionResponse>)
    ensures
        match outcome {
            Ok(response) => spec_is_success_reply(r, response),
            Err(error) => spec_is_failure_reply(r, error@),
        },
{
    match outcome {
        Ok(response) => Reply { status: HttpStatus::Success, body: ApiResponse::succeeded(response) },
        Err(error) => failure_reply(&error),
    }
}

/// The answer to a status inquiry: the verdict, or the failure with the
/// status of its class. A missing submission is a client's error, not the
/// server's.
pub fn get_submission_status_reply(
    outcome: Result<GetSubmissionStatusResponse, SubmissionError>,
) -> (r: Reply<GetSubmissionStatusResponse>)
    ensures
        match outcome {
            Ok(response) => spec_is_success_reply(r, response),
            Err(error) => spec_is_failure_reply(r, error@),
        },
{
    match outcome {
        Ok(response) => Reply { status: HttpStatus::Success, body: ApiResponse::succeeded(response) },
        Err(error) => failure_reply(&error),
    }
}

/// The answer to a direct comparison that failed: a server error that
/// reports the comparator's complaint.
pub fn comparison_failed_reply<T>(cause: String) -> (r: Reply<T>)
    ensures
        r.status == HttpStatus::InternalServerError,
        !r.body.success,
        r.body.data is None,
        r.body.errors matches Some(errors) && api_error_views(errors@) == seq![
            ApiErrorView {
                entity: spec_error_entity(),
                code: spec_comparison_failed_code(),
                cause: cause@,
            },
        ],
{
    failure(HttpStatus::InternalServerError, ApiError::new("1006", cause))
}

/// Reads the type of a status inquiry: either type can be inquired, and a
/// text that spells none is answered with a bad request.
pub fn status_query_type<T>(text: &str) -> (r: Result<SubmissionType, Reply<T>>)
    ensures
        match r {
            Ok(kind) => SubmissionType::spec_parse(text@) == Some(kind),
            Err(reply) => {
                &&& SubmissionType::spec_parse(text@) is None
                &&& reply.status == HttpStatus::BadRequest
                &&& !reply.body.success
                &&& reply.body.data is None
                &&& reply.body.errors matches Some(errors) && api_error_views(errors@) == seq![
                    ApiErrorView {
                        entity: spec_error_entity(),
                        code: spec_invalid_request_code(),
                        cause: spec_invalid_type_cause(),
                    },
                ]
            },
        },
{
    match SubmissionType::parse(text) {
        Some(kind) => Ok(kind),
        None => Err(
            failure(
                HttpStatus::BadRequest,
                ApiError::new("1003", "INVALID_SUBMISSION_TYPE".to_owned()),
            ),
        ),
    }
}

/// A failure is answered as the server's error exactly where a collaborator
/// failed; a validation failure and a missing submission or document are
/// answered as the client's, each with a status of its own.
pub proof fn lemma_status_follows_category(error: SubmissionErrorView)
    ensures
        spec_status_of(error.kind.spec_category()) == HttpStatus::InternalServerError
            <==> error.kind.spec_category() == ErrorCategory::Dependency,
        spec_status_of(error.kind.spec_category()) != HttpStatus::Success,
{
}

} // verus!
