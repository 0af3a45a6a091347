//! The status inquiry: is the credential behind a correlator verified?

use vstd::prelude::*;
use crate::submissions::errors::{ErrorKind, SubmissionError, SubmissionErrorView};
use crate::submissions::issuance::{normalize_correlator, spec_normalize_correlator};
use crate::submissions::submission_controller::{GetSubmissionStatusResponse, SubmissionType};
use crate::submissions::vocabulary::SubmissionStatus;

verus! {

/// The verdict for a credential whose latest submission is approved.
pub open spec fn spec_verified() -> Seq<char> {
    "KYC"@
}

/// The verdict for a credential whose latest submission is anything else.
pub open spec fn spec_not_verified() -> Seq<char> {
    "NOT_KYC"@
}

/// The lookup that answers a status inquiry: the latest submission of the
/// type with the correlator.
#[derive(Debug, Clone, PartialEq, Eq)]
pub struct StatusLookup {
    pub submission_type: SubmissionType,
    pub correlator: String,
}

/// The view of a [`StatusLookup`].
pub struct StatusLookupView {
    pub submission_type: SubmissionType,
    pub correlator: Seq<char>,
}

impl View for StatusLookup {
    type V = StatusLookupView;

    open spec fn view(&self) -> StatusLookupView {
        StatusLookupView { submission_type: self.submission_type, correlator: self.correlator@ }
    }
}

/// The caller-facing verdict for a stored status: verified exactly where the
/// stored status is spelled `APPROVED`.
pub open spec fn spec_verdict(stored_status: Seq<char>) -> Seq<char> {
    if stored_status == SubmissionStatus::Approved.spec_name() {
        spec_verified()
    } else {
        spec_not_verified()
    }
}

/// The answer to a status inquiry, from the store's answer to its lookup.
pub open spec fn spec_status_answer(found: Result<Option<String>, String>) -> Result<
    Seq<char>,
    SubmissionErrorView,
> {
    match found {
        Err(cause) => Err(SubmissionErrorView::dependency(ErrorKind::Persistence, cause@)),
        Ok(None) => Err(SubmissionErrorView::of(ErrorKind::NotFound)),
        Ok(Some(stored_status)) => Ok(spec_verdict(stored_status@)),
    }
}

/// An inquiry is answered as verified exactly where the latest submission's
/// stored status is spelled `APPROVED`; a submission that is only initiated,
/// or rejected, is not verified; and where there is no submission at all the
/// answer is the not-found error, never a verdict.
pub proof fn lemma_verified_iff_approved(stored_status: String)
    ensures
        spec_status_answer(Ok(Some(stored_status))) == Ok::<Seq<char>, SubmissionErrorView>(
            spec_verified(),
        ) <==> stored_status@ == SubmissionStatus::Approved.spec_name(),
        stored_status@ != SubmissionStatus::Approved.spec_name() ==> spec_status_answer(
            Ok(Some(stored_status)),
        ) == Ok::<Seq<char>, SubmissionErrorView>(spec_not_verified()),
        spec_verified() != spec_not_verified(),
        spec_verdict(SubmissionStatus::Initiated.spec_name()) == spec_not_verified(),
        spec_verdict(SubmissionStatus::Rejected.spec_name()) == spec_not_verified(),
        spec_verdict(SubmissionStatus::Approved.spec_name()) == spec_verified(),
        spec_status_answer(Ok(None)) == Err::<Seq<char>, SubmissionErrorView>(
            SubmissionErrorView::of(ErrorKind::NotFound),
        ),
{
    reveal_strlit("KYC");
    reveal_strlit("NOT_KYC");
    assert("KYC"@.len() != "NOT_KYC"@.len());
    crate::submissions::vocabulary::lemma_statuses_distinct(
        SubmissionStatus::Initiated,
        SubmissionStatus::Approved,
    );
    crate::submissions::vocabulary::lemma_statuses_distinct(
        SubmissionStatus::Rejected,
        SubmissionStatus::Approved,
    );
}

/// The lookup to make for a status inquiry. The correlator is cut to the
/// length it was stored with.
pub fn status_lookup(submission_type: SubmissionType, correlator: &str) -> (r: StatusLookup)
    ensures
        r@ == (StatusLookupView {
            submission_type,
            correlator: spec_normalize_correlator(correlator@),
        }),
{
    StatusLookup { submission_type, correlator: normalize_correlator(correlator) }
}

/// The caller-facing verdict for a stored status.
pub fn verdict(stored_status: &str) -> (r: &'static str)
    ensures
        r@ == spec_verdict(stored_status@),
{
    if SubmissionStatus::is_approved_text(stored_status) {
        "KYC"
    } else {
        "NOT_KYC"
    }
}

/// Answers a status inquiry from the store's answer to its lookup: verified
/// for an approved submission, not verified for any other, not found where
/// there is no submission at all, and a persistence failure where the store
/// failed.
pub fn status_answer(found: Result<Option<String>, String>) -> (r: Result<
    GetSubmissionStatusResponse,
    SubmissionError,
>)
    ensures
        match r {
            Ok(response) => spec_status_answer(found) == Ok::<Seq<char>, SubmissionErrorView>(
                response@,
            ),
            Err(error) => spec_status_answer(found) == Err::<Seq<char>, SubmissionErrorView>(
                error@,
            ),
        },
{
    match found {
        Err(cause) => Err(SubmissionError::dependency(ErrorKind::Persistence, cause)),
        Ok(None) => Err(SubmissionError::of(ErrorKind::NotFound)),
        Ok(Some(stored_status)) => Ok(
            GetSubmissionStatusResponse {
                submission_status: verdict(stored_status.as_str()).to_owned(),
            },
        ),
    }
}

} // verus!
