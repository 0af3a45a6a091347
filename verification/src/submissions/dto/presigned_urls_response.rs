//! What issuing upload credentials answers, and what it records per document.

use vstd::prelude::*;
use crate::submissions::vocabulary::DocumentRole;

verus! {

/// A caller-facing upload credential for one document.
#[derive(Debug, Clone, PartialEq, Eq)]
pub struct Document {
    /// The time-limited URL to upload the document to.
    pub document_url: String,
    /// The external handle of the document.
    pub document_reference: String,
    /// The validity of the URL in seconds, in decimal digits.
    pub expiry_in_seconds: String,
}

/// The characters of a [`Document`].
pub struct DocumentView {
    pub document_url: Seq<char>,
    pub document_reference: Seq<char>,
    pub expiry_in_seconds: Seq<char>,
}

impl View for Document {
    type V = DocumentView;

    open spec fn view(&self) -> DocumentView {
        DocumentView {
            document_url: self.document_url@,
            document_reference: self.document_reference@,
            expiry_in_seconds: self.expiry_in_seconds@,
        }
    }
}

/// What the submission row records of one document.
#[derive(Debug, Clone, PartialEq, Eq)]
pub struct SubmissionData {
    /// The name of the stored object.
    pub document_name: String,
    /// The external handle of the document.
    pub document_reference: String,
}

/// The characters of a [`SubmissionData`].
pub struct SubmissionDataView {
    pub document_name: Seq<char>,
    pub document_reference: Seq<char>,
}

impl View for SubmissionData {
    type V = SubmissionDataView;

    open spec fn view(&self) -> SubmissionDataView {
        SubmissionDataView {
            document_name: self.document_name@,
            document_reference: self.document_reference@,
        }
    }
}

/// The upload credential issued for one role.
#[derive(Debug, Clone, PartialEq, Eq)]
pub struct DocumentEntry {
    pub role: DocumentRole,
    pub document: Document,
}

/// The view of a [`DocumentEntry`].
pub struct DocumentEntryView {
    pub role: DocumentRole,
    pub document: DocumentView,
}

impl View for DocumentEntry {
    type V = DocumentEntryView;

    open spec fn view(&self) -> DocumentEntryView {
        DocumentEntryView { role: self.role, document: self.document@ }
    }
}

/// The stored object recorded for one role.
#[derive(Debug, Clone, PartialEq, Eq)]
pub struct DocumentRecord {
    pub role: DocumentRole,
    pub data: SubmissionData,
}

/// The view of a [`DocumentRecord`].
pub struct DocumentRecordView {
    pub role: DocumentRole,
    pub data: SubmissionDataView,
}

impl View for DocumentRecord {
    type V = DocumentRecordView;

    open spec fn view(&self) -> DocumentRecordView {
        DocumentRecordView { role: self.role, data: self.data@ }
    }
}

/// The views of a list of upload credentials, in order.
pub open spec fn entry_views(entries: Seq<DocumentEntry>) -> Seq<DocumentEntryView> {
    entries.map_values(|e: DocumentEntry| e@)
}

/// The views of a list of recorded documents, in order.
pub open spec fn record_views(records: Seq<DocumentRecord>) -> Seq<DocumentRecordView> {
    records.map_values(|r: DocumentRecord| r@)
}

/// The roles of a list of upload credentials, in order.
pub open spec fn entry_roles(entries: Seq<DocumentEntryView>) -> Seq<DocumentRole> {
    entries.map_values(|e: DocumentEntryView| e.role)
}

/// The roles of a list of recorded documents, in order.
pub open spec fn record_roles(records: Seq<DocumentRecordView>) -> Seq<DocumentRole> {
    records.map_values(|r: DocumentRecordView| r.role)
}

/// The answer to a request for upload credentials.
#[derive(Debug, Clone, PartialEq, Eq)]
pub struct PresignedUrlsResponse {
    /// The id of the submission that was created.
    pub submission_id: String,
    /// One upload credential per role the caller uploads, each role once.
    pub documents: Vec<DocumentEntry>,
}

/// The view of a [`PresignedUrlsResponse`].
pub struct PresignedUrlsResponseView {
    pub submission_id: Seq<char>,
    pub documents: Seq<DocumentEntryView>,
}

impl View for PresignedUrlsResponse {
    type V = PresignedUrlsResponseView;

    open spec fn view(&self) -> PresignedUrlsResponseView {
        PresignedUrlsResponseView {
            submission_id: self.submission_id@,
            documents: entry_views(self.documents@),
        }
    }
}

impl PresignedUrlsResponse {
    /// The credential issued for `role`, if one was.
    pub fn document(&self, role: DocumentRole) -> (r: Option<&Document>)
        ensures
            match r {
                Some(d) => exists|i: int|
                    0 <= i < self.documents@.len() && (#[trigger] self.documents@[i]).role == role
                        && self.documents@[i].document == *d,
                None => forall|i: int|
                    0 <= i < self.documents@.len() ==> (#[trigger] self.documents@[i]).role != role,
            },
    {
        let mut i: usize = 0;
        while i < self.documents.len()
            invariant
                i <= self.documents@.len(),
                forall|j: int| 0 <= j < i ==> (#[trigger] self.documents@[j]).role != role,
            decreases self.documents@.len() - i,
        {
            if self.documents[i].role == role {
                return Some(&self.documents[i].document);
            }
            i += 1;
        }
        None
    }
}

} // verus!
