//! The closed vocabularies of the workflow and their stable spellings.

use vstd::prelude::*;
use crate::text::same_text;

verus! {

/// The logical slot a document fills within a submission.
#[derive(Debug, Clone, Copy, PartialEq, Eq, Structural)]
pub enum DocumentRole {
    /// The photo of the identity card.
    Ktp,
    /// The live selfie.
    Selfie,
    /// The image read from the card's chip.
    Nfc,
}

impl DocumentRole {
    /// The spelling of the role in stored document maps and in answers.
    pub open spec fn spec_name(self) -> Seq<char> {
        match self {
            DocumentRole::Ktp => "KTP"@,
            DocumentRole::Selfie => "SELFIE"@,
            DocumentRole::Nfc => "NFC"@,
        }
    }

    /// What follows the identifier in the name of a stored object of this role.
    pub open spec fn spec_suffix(self) -> Seq<char> {
        match self {
            DocumentRole::Ktp => "_KTP"@,
            DocumentRole::Selfie => "_SELFIE"@,
            DocumentRole::Nfc => "_NFC"@,
        }
    }

    /// The spelling of the role.
    pub fn name(&self) -> (r: &'static str)
        ensures
            r@ == self.spec_name(),
    {
        match self {
            DocumentRole::Ktp => "KTP",
            DocumentRole::Selfie => "SELFIE",
            DocumentRole::Nfc => "NFC",
        }
    }

    /// The suffix of stored-object names of this role.
    pub fn suffix(&self) -> (r: &'static str)
        ensures
            r@ == self.spec_suffix(),
    {
        match self {
            DocumentRole::Ktp => "_KTP",
            DocumentRole::Selfie => "_SELFIE",
            DocumentRole::Nfc => "_NFC",
        }
    }
}

/// Different roles are spelled differently, and their suffixes end differently.
pub proof fn lemma_roles_distinct(a: DocumentRole, b: DocumentRole)
    ensures
        a.spec_name() == b.spec_name() ==> a == b,
        a.spec_suffix().len() >= 4,
        a.spec_suffix().last() == b.spec_suffix().last() ==> a == b,
{
    reveal_strlit("KTP");
    reveal_strlit("SELFIE");
    reveal_strlit("NFC");
    reveal_strlit("_KTP");
    reveal_strlit("_SELFIE");
    reveal_strlit("_NFC");
    if a.spec_name() == b.spec_name() {
        assert(a.spec_name().len() == b.spec_name().len());
        assert(a.spec_name()[0] == b.spec_name()[0]);
    }
}

/// Where a submission stands in its lifecycle.
#[derive(Debug, Clone, Copy, PartialEq, Eq, Structural)]
pub enum SubmissionStatus {
    /// Created, not yet processed.
    Initiated,
    /// Processed, and the comparison matched.
    Approved,
    /// Processed, and the comparison did not match.
    Rejected,
}

impl SubmissionStatus {
    /// The spelling of the status in the submission store and in answers.
    pub open spec fn spec_name(self) -> Seq<char> {
        match self {
            SubmissionStatus::Initiated => "INITIATED"@,
            SubmissionStatus::Approved => "APPROVED"@,
            SubmissionStatus::Rejected => "REJECTED"@,
        }
    }

    /// The status that a comparator verdict leads to.
    pub open spec fn spec_from_verdict(is_match: bool) -> SubmissionStatus {
        if is_match {
            SubmissionStatus::Approved
        } else {
            SubmissionStatus::Rejected
        }
    }

    /// Whether the status ends the lifecycle.
    pub open spec fn spec_is_terminal(self) -> bool {
        self != SubmissionStatus::Initiated
    }

    /// The spelling of the status.
    pub fn name(&self) -> (r: &'static str)
        ensures
            r@ == self.spec_name(),
    {
        match self {
            SubmissionStatus::Initiated => "INITIATED",
            SubmissionStatus::Approved => "APPROVED",
            SubmissionStatus::Rejected => "REJECTED",
        }
    }

    /// The status that a comparator verdict leads to: approved on a match,
    /// rejected otherwise.
    pub fn from_verdict(is_match: bool) -> (r: SubmissionStatus)
        ensures
            r == Self::spec_from_verdict(is_match),
            r.spec_is_terminal(),
    {
        if is_match {
            SubmissionStatus::Approved
        } else {
            SubmissionStatus::Rejected
        }
    }

    /// Whether a stored status text is exactly the spelling of `Approved`.
    pub fn is_approved_text(stored: &str) -> (r: bool)
        ensures
            r == (stored@ == SubmissionStatus::Approved.spec_name()),
    {
        same_text(stored, "APPROVED")
    }
}

/// Different statuses are spelled differently.
pub proof fn lemma_statuses_distinct(a: SubmissionStatus, b: SubmissionStatus)
    ensures
        a.spec_name() == b.spec_name() ==> a == b,
{
    reveal_strlit("INITIATED");
    reveal_strlit("APPROVED");
    reveal_strlit("REJECTED");
    if a.spec_name() == b.spec_name() {
        assert(a.spec_name().len() == b.spec_name().len());
        assert(a.spec_name()[0] == b.spec_name()[0]);
    }
}

} // verus!
