//! The biometric comparator: what is sent to it and what is read of its answer.

use vstd::prelude::*;
use crate::http::{is_success, spec_is_success};
use crate::text::join;

verus! {

/// A comparison request: two image URLs and the submission it is made for.
#[derive(Debug, Clone, PartialEq, Eq)]
pub struct FaceMatchRequest {
    pub image1_url: String,
    pub image2_url: String,
    pub submission_id: String,
}

/// The characters of a [`FaceMatchRequest`].
pub struct FaceMatchRequestView {
    pub image1_url: Seq<char>,
    pub image2_url: Seq<char>,
    pub submission_id: Seq<char>,
}

impl View for FaceMatchRequest {
    type V = FaceMatchRequestView;

    open spec fn view(&self) -> FaceMatchRequestView {
        FaceMatchRequestView {
            image1_url: self.image1_url@,
            image2_url: self.image2_url@,
            submission_id: self.submission_id@,
        }
    }
}

/// What the workflow reads of the comparator's answer: whether the two images
/// match. The score and the threshold behind the verdict are not interpreted.
#[derive(Debug, Clone, Copy, PartialEq, Eq, Structural)]
pub struct FaceMatchVerdict {
    pub is_match: bool,
}

/// The path of the comparison endpoint below the comparator's base URL.
pub open spec fn spec_compare_path() -> Seq<char> {
    "/compare-faces"@
}

/// The URL of the comparison endpoint of the comparator at `base_url`.
pub fn compare_endpoint(base_url: &str) -> (r: String)
    ensures
        r@ == base_url@ + spec_compare_path(),
{
    join(base_url, "/compare-faces")
}

/// The header that carries the submission's id to the comparator.
pub fn submission_header() -> (r: &'static str)
    ensures
        r@ == "x-submission-id"@,
{
    "x-submission-id"
}

/// The comparison request of a submission for two images.
pub fn comparison_request(image1_url: String, image2_url: String, submission_id: String) -> (r:
    FaceMatchRequest)
    ensures
        r@ == (FaceMatchRequestView {
            image1_url: image1_url@,
            image2_url: image2_url@,
            submission_id: submission_id@,
        }),
{
    FaceMatchRequest { image1_url, image2_url, submission_id }
}

/// Why a comparison failed. Each failure is reported as one error without a
/// partial result.
#[derive(Debug, Clone, PartialEq, Eq)]
pub enum ComparisonFailure {
    /// The request could not be made.
    Transport { detail: String },
    /// The comparator answered with a status that is no success.
    Status { status: String },
    /// The comparator's answer could not be read.
    Unreadable { detail: String },
}

impl ComparisonFailure {
    /// The message of the failure.
    pub open spec fn spec_message(self) -> Seq<char> {
        match self {
            ComparisonFailure::Transport { detail } => "HTTP request failed: "@ + detail@,
            ComparisonFailure::Status { status } => "Face match API returned error status: "@
                + status@,
            ComparisonFailure::Unreadable { detail } => "Failed to parse response: "@ + detail@,
        }
    }

    /// The message of the failure.
    pub fn message(&self) -> (r: String)
        ensures
            r@ == self.spec_message(),
    {
        match self {
            ComparisonFailure::Transport { detail } => join("HTTP request failed: ", detail.as_str()),
            ComparisonFailure::Status { status } => join(
                "Face match API returned error status: ",
                status.as_str(),
            ),
            ComparisonFailure::Unreadable { detail } => join(
                "Failed to parse response: ",
                detail.as_str(),
            ),
        }
    }
}

/// What an exchange with the comparator amounts to. `sent` is what sending
/// the request gave: the status code of the answer with its text, or the
/// complaint of the transport. `read` is what reading the body of the answer
/// gave, where it was read. The exchange fails on a transport failure, on a
/// status that is no success, and on a body that was not read or cannot be
/// read, in this order; otherwise it gives the verdict. An unread body is
/// reported without a detail.
pub open spec fn spec_comparison_outcome(
    sent: Result<(u16, String), String>,
    read: Option<Result<FaceMatchVerdict, String>>,
    outcome: Result<FaceMatchVerdict, ComparisonFailure>,
) -> bool {
    match sent {
        Err(complaint) => outcome matches Err(ComparisonFailure::Transport { detail }) && detail@
            == complaint@,
        Ok((code, text)) => if !spec_is_success(code) {
            outcome matches Err(ComparisonFailure::Status { status }) && status@ == text@
        } else {
            match read {
                None => outcome matches Err(ComparisonFailure::Unreadable { detail }) && detail@
                    == Seq::<char>::empty(),
                Some(Err(complaint)) => outcome matches Err(
                    ComparisonFailure::Unreadable { detail },
                ) && detail@ == complaint@,
                Some(Ok(verdict)) => outcome == Ok::<FaceMatchVerdict, ComparisonFailure>(verdict),
            }
        },
    }
}

/// Decides what an exchange with the comparator amounts to.
pub fn comparison_outcome(
    sent: Result<(u16, String), String>,
    read: Option<Result<FaceMatchVerdict, String>>,
) -> (r: Result<FaceMatchVerdict, ComparisonFailure>)
    ensures
        spec_comparison_outcome(sent, read, r),
{
    match sent {
        Err(complaint) => Err(ComparisonFailure::Transport { detail: complaint }),
        Ok((code, text)) => {
            if !is_success(code) {
                Err(ComparisonFailure::Status { status: text })
            } else {
                match read {
                    None => Err(ComparisonFailure::Unreadable { detail: String::new() }),
                    Some(Err(complaint)) => Err(ComparisonFailure::Unreadable { detail: complaint }),
                    Some(Ok(verdict)) => Ok(verdict),
                }
            }
        },
    }
}

/// The counter of a comparison: an error where it failed, and otherwise a
/// success or a failure by whether the score reached the threshold.
pub open spec fn spec_comparison_counter(reached_threshold: Option<bool>) -> Seq<char> {
    match reached_threshold {
        None => "face_match.error"@,
        Some(true) => "face_match.success"@,
        Some(false) => "face_match.failure"@,
    }
}

/// The counter of a comparison; `reached_threshold` is `None` where the
/// comparison failed.
pub fn comparison_counter(reached_threshold: Option<bool>) -> (r: &'static str)
    ensures
        r@ == spec_comparison_counter(reached_threshold),
{
    match reached_threshold {
        None => "face_match.error",
        Some(true) => "face_match.success",
        Some(false) => "face_match.failure",
    }
}

/// The timer of a comparison.
pub fn comparison_timer() -> (r: &'static str)
    ensures
        r@ == "face_match.duration"@,
{
    "face_match.duration"
}

} // verus!
