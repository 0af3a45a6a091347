//! The failures of the submission workflows and how they are reported.

use vstd::prelude::*;
use crate::models::user::{api_error_views, spec_error_entity, ApiError, ApiErrorView};

verus! {

/// Which failure occurred.
#[derive(Debug, Clone, Copy, PartialEq, Eq, Structural)]
pub enum ErrorKind {
    /// No submission has the given id.
    NotFound,
    /// The stored document map is no JSON object.
    InvalidData,
    /// The selfie is not recorded, or its object is not in the store.
    SelfieMissing,
    /// The chip image is not recorded.
    NfcMissing,
    /// No approved submission shares the correlator.
    SubmissionNotFound,
    /// The submission's type is none the workflow knows.
    InvalidSubmissionType,
    /// The inline chip image does not decode.
    InvalidPayload,
    /// The object store failed.
    Storage,
    /// The submission store failed.
    Persistence,
    /// The comparator failed.
    ComparisonFailed,
    /// The workflow was handed an answer it had not asked for.
    System,
}

/// The three classes of failure.
#[derive(Debug, Clone, Copy, PartialEq, Eq, Structural)]
pub enum ErrorCategory {
    /// Malformed input; reported, never retried.
    Validation,
    /// Something the caller named does not exist.
    NotFound,
    /// A collaborator failed.
    Dependency,
}

impl ErrorKind {
    /// The numeric code that the failure is reported under. The code tells
    /// the class of the failure: `1003` for a validation failure, `1004` for
    /// something that does not exist, any other code for a collaborator.
    pub open spec fn spec_code(self) -> Seq<char> {
        match self {
            ErrorKind::NotFound => "1004"@,
            ErrorKind::InvalidData => "1003"@,
            ErrorKind::SelfieMissing => "1004"@,
            ErrorKind::NfcMissing => "1004"@,
            ErrorKind::SubmissionNotFound => "1004"@,
            ErrorKind::InvalidSubmissionType => "1003"@,
            ErrorKind::InvalidPayload => "1003"@,
            ErrorKind::Storage => "1001"@,
            ErrorKind::Persistence => "1002"@,
            ErrorKind::ComparisonFailed => "1006"@,
            ErrorKind::System => "1000"@,
        }
    }

    /// The cause reported for a failure that carries no diagnostic text.
    pub open spec fn spec_fixed_cause(self) -> Seq<char> {
        match self {
            ErrorKind::NotFound => "SUBMISSION_NOT_FOUND"@,
            ErrorKind::InvalidData => "INVALID_SUBMISSION_DATA"@,
            ErrorKind::SelfieMissing => "SELFIE_DOES_NOT_EXIST"@,
            ErrorKind::NfcMissing => "NFC_DOES_NOT_EXIST"@,
            ErrorKind::SubmissionNotFound => "APPROVED_SUBMISSION_NOT_FOUND"@,
            ErrorKind::InvalidSubmissionType => "INVALID_SUBMISSION_TYPE"@,
            ErrorKind::InvalidPayload => "INVALID_PAYLOAD"@,
            _ => "SYSTEM_ERROR"@,
        }
    }

    /// The class of the failure.
    pub open spec fn spec_category(self) -> ErrorCategory {
        match self {
            ErrorKind::InvalidData => ErrorCategory::Validation,
            ErrorKind::InvalidSubmissionType => ErrorCategory::Validation,
            ErrorKind::InvalidPayload => ErrorCategory::Validation,
            ErrorKind::NotFound => ErrorCategory::NotFound,
            ErrorKind::SelfieMissing => ErrorCategory::NotFound,
            ErrorKind::NfcMissing => ErrorCategory::NotFound,
            ErrorKind::SubmissionNotFound => ErrorCategory::NotFound,
            _ => ErrorCategory::Dependency,
        }
    }

    /// The numeric code that the failure is reported under.
    pub fn code(&self) -> (r: &'static str)
        ensures
            r@ == self.spec_code(),
    {
        match self {
            ErrorKind::NotFound => "1004",
            ErrorKind::InvalidData => "1003",
            ErrorKind::SelfieMissing => "1004",
            ErrorKind::NfcMissing => "1004",
            ErrorKind::SubmissionNotFound => "1004",
            ErrorKind::InvalidSubmissionType => "1003",
            ErrorKind::InvalidPayload => "1003",
            ErrorKind::Storage => "1001",
            ErrorKind::Persistence => "1002",
            ErrorKind::ComparisonFailed => "1006",
            ErrorKind::System => "1000",
        }
    }

    /// The cause reported for a failure that carries no diagnostic text.
    pub fn fixed_cause(&self) -> (r: &'static str)
        ensures
            r@ == self.spec_fixed_cause(),
    {
        match self {
            ErrorKind::NotFound => "SUBMISSION_NOT_FOUND",
            ErrorKind::InvalidData => "INVALID_SUBMISSION_DATA",
            ErrorKind::SelfieMissing => "SELFIE_DOES_NOT_EXIST",
            ErrorKind::NfcMissing => "NFC_DOES_NOT_EXIST",
            ErrorKind::SubmissionNotFound => "APPROVED_SUBMISSION_NOT_FOUND",
            ErrorKind::InvalidSubmissionType => "INVALID_SUBMISSION_TYPE",
            ErrorKind::InvalidPayload => "INVALID_PAYLOAD",
            _ => "SYSTEM_ERROR",
        }
    }

    /// The class of the failure.
    pub fn category(&self) -> (r: ErrorCategory)
        ensures
            r == self.spec_category(),
    {
        match self {
            ErrorKind::InvalidData => ErrorCategory::Validation,
            ErrorKind::InvalidSubmissionType => ErrorCategory::Validation,
            ErrorKind::InvalidPayload => ErrorCategory::Validation,
            ErrorKind::NotFound => ErrorCategory::NotFound,
            ErrorKind::SelfieMissing => ErrorCategory::NotFound,
            ErrorKind::NfcMissing => ErrorCategory::NotFound,
            ErrorKind::SubmissionNotFound => ErrorCategory::NotFound,
            _ => ErrorCategory::Dependency,
        }
    }
}

/// A failure of a submission workflow: its kind, and the cause reported with it.
#[derive(Debug, Clone, PartialEq, Eq)]
pub struct SubmissionError {
    pub kind: ErrorKind,
    pub cause: String,
}

/// The kind and the characters of the cause of a [`SubmissionError`].
pub struct SubmissionErrorView {
    pub kind: ErrorKind,
    pub cause: Seq<char>,
}

impl SubmissionErrorView {
    /// The failure of the given kind with its fixed cause.
    pub open spec fn of(kind: ErrorKind) -> SubmissionErrorView {
        SubmissionErrorView { kind, cause: kind.spec_fixed_cause() }
    }

    /// The failure of a collaborator with its diagnostic text.
    pub open spec fn dependency(kind: ErrorKind, cause: Seq<char>) -> SubmissionErrorView {
        SubmissionErrorView { kind, cause }
    }

    /// The structured error that reports the failure.
    pub open spec fn api_error(self) -> ApiErrorView {
        ApiErrorView { entity: spec_error_entity(), code: self.kind.spec_code(), cause: self.cause }
    }
}

impl View for SubmissionError {
    type V = SubmissionErrorView;

    open spec fn view(&self) -> SubmissionErrorView {
        SubmissionErrorView { kind: self.kind, cause: self.cause@ }
    }
}

impl SubmissionError {
    /// The failure of the given kind with its fixed cause.
    pub fn of(kind: ErrorKind) -> (r: SubmissionError)
        ensures
            r@ == SubmissionErrorView::of(kind),
    {
        SubmissionError { kind, cause: kind.fixed_cause().to_owned() }
    }

    /// The failure of a collaborator, reported with its diagnostic text.
    pub fn dependency(kind: ErrorKind, cause: String) -> (r: SubmissionError)
        ensures
            r@ == SubmissionErrorView::dependency(kind, cause@),
    {
        SubmissionError { kind, cause }
    }

    /// The structured error that reports the failure.
    pub fn api_error(&self) -> (r: ApiError)
        ensures
            r@ == self@.api_error(),
    {
        ApiError::new(self.kind.code(), self.cause.clone())
    }

    /// The list of structured errors that reports the failure. It is never empty.
    pub fn api_errors(&self) -> (r: Vec<ApiError>)
        ensures
            api_error_views(r@) == seq![self@.api_error()],
    {
        let mut errors: Vec<ApiError> = Vec::new();
        errors.push(self.api_error());
        assert(api_error_views(errors@) =~= seq![self@.api_error()]);
        errors
    }
}

/// The causes of a missing selfie and of a missing chip image differ, so the
/// two failures can be told apart in what is reported.
pub proof fn lemma_missing_documents_distinguishable()
    ensures
        SubmissionErrorView::of(ErrorKind::SelfieMissing).api_error() != SubmissionErrorView::of(
            ErrorKind::NfcMissing,
        ).api_error(),
{
    reveal_strlit("SELFIE_DOES_NOT_EXIST");
    reveal_strlit("NFC_DOES_NOT_EXIST");
    assert("SELFIE_DOES_NOT_EXIST"@.len() != "NFC_DOES_NOT_EXIST"@.len());
}

/// A re-verification without an approved submission and an unknown id are
/// both reported as not found, but with different causes, so the two can be
/// told apart in what is reported.
pub proof fn lemma_not_found_kinds_distinguishable()
    ensures
        SubmissionErrorView::of(ErrorKind::SubmissionNotFound).api_error() != SubmissionErrorView::of(
            ErrorKind::NotFound,
        ).api_error(),
        SubmissionErrorView::of(ErrorKind::SubmissionNotFound).api_error().cause
            != SubmissionErrorView::of(ErrorKind::NotFound).api_error().cause,
        ErrorKind::SubmissionNotFound.spec_category() == ErrorKind::NotFound.spec_category(),
{
    reveal_strlit("APPROVED_SUBMISSION_NOT_FOUND");
    reveal_strlit("SUBMISSION_NOT_FOUND");
    assert("APPROVED_SUBMISSION_NOT_FOUND"@.len() != "SUBMISSION_NOT_FOUND"@.len());
}

/// The code of a validation failure.
pub open spec fn spec_validation_code() -> Seq<char> {
    "1003"@
}

/// The code of a failure to find something.
pub open spec fn spec_not_found_code() -> Seq<char> {
    "1004"@
}

/// The code tells the class of a failure: a failure carries the validation
/// code exactly if it is a validation failure, and the not-found code exactly
/// if something does not exist; the failures of collaborators carry neither.
pub proof fn lemma_code_tells_category(kind: ErrorKind)
    ensures
        kind.spec_code() == spec_validation_code() <==> kind.spec_category()
            == ErrorCategory::Validation,
        kind.spec_code() == spec_not_found_code() <==> kind.spec_category()
            == ErrorCategory::NotFound,
        spec_validation_code() != spec_not_found_code(),
{
    reveal_strlit("1000");
    reveal_strlit("1001");
    reveal_strlit("1002");
    reveal_strlit("1003");
    reveal_strlit("1004");
    reveal_strlit("1006");
    assert("1003"@[3] != "1004"@[3]);
    assert(kind.spec_code()[3] == kind.spec_code()[3]);
}

/// Two failures with the same code are of the same class.
pub proof fn lemma_same_code_same_category(a: ErrorKind, b: ErrorKind)
    requires
        a.spec_code() == b.spec_code(),
    ensures
        a.spec_category() == b.spec_category(),
{
    lemma_code_tells_category(a);
    lemma_code_tells_category(b);
}

} // verus!
