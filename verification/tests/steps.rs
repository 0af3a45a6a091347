//! Single steps of the workflows, and answers that a state does not wait for.

use kyc_submissions::services::face_match_service::FaceMatchVerdict;
use kyc_submissions::submissions::errors::ErrorKind;
use kyc_submissions::submissions::issuance::{
    IssuanceAction, IssuanceEvent, IssuanceIds, IssuancePlan, IssuanceRequest, IssuanceState,
    CORRELATOR_LIMIT, UPLOAD_URL_TTL_SECONDS,
};
use kyc_submissions::submissions::processing::{ProcessingAction, ProcessingEvent, ProcessingState};
use kyc_submissions::submissions::status::{status_answer, status_lookup, verdict};
use kyc_submissions::submissions::submission_controller::SubmissionType;
use kyc_submissions::submissions::submission_service::draw_identifiers;
use kyc_submissions::submissions::vocabulary::{DocumentRole, SubmissionStatus};

fn ids() -> IssuanceIds {
    IssuanceIds {
        submission_id: "sub".to_string(),
        ktp_id: "k".to_string(),
        selfie_id: "s".to_string(),
        nfc_id: "n".to_string(),
    }
}

fn plan(kind: SubmissionType, payload: &str) -> IssuancePlan {
    IssuancePlan::new(
        IssuanceRequest {
            session_id: "session".to_string(),
            user_id: "actor".to_string(),
            submission_type: kind,
            correlator: "abc123".to_string(),
            nfc_payload: payload.to_string(),
        },
        ids(),
    )
}

#[test]
fn enrollment_asks_for_ktp_then_selfie_then_uploads_then_creates() {
    assert_eq!(UPLOAD_URL_TTL_SECONDS, 600);
    assert_eq!(CORRELATOR_LIMIT, 500);
    let (state, action) = IssuanceState::start(plan(SubmissionType::KYC, "QUJD"));
    assert_eq!(
        action,
        IssuanceAction::IssueUploadUrl { object_name: "k_KTP".to_string(), ttl_seconds: 600 }
    );
    let (state, action) = state.step(IssuanceEvent::UploadUrlIssued(Ok("url-k".to_string())));
    assert_eq!(
        action,
        IssuanceAction::IssueUploadUrl { object_name: "s_SELFIE".to_string(), ttl_seconds: 600 }
    );
    let (state, action) = state.step(IssuanceEvent::UploadUrlIssued(Ok("url-s".to_string())));
    assert_eq!(
        action,
        IssuanceAction::UploadObject {
            object_name: "n_NFC".to_string(),
            content: b"ABC".to_vec(),
            content_type: "image/jpeg".to_string(),
        }
    );
    let (state, action) = state.step(IssuanceEvent::ObjectUploaded(Ok(())));
    match action {
        IssuanceAction::CreateSubmission {
            submission_id,
            submission_type,
            session_id,
            user_id,
            status,
            documents,
            request_payload,
            correlator,
        } => {
            assert_eq!(request_payload.json(), kyc_submissions::json::JsonValue::empty_object());
            assert_eq!(submission_id, "sub");
            assert_eq!(submission_type, SubmissionType::KYC);
            assert_eq!(session_id, "session");
            assert_eq!(user_id, "actor");
            assert_eq!(status, SubmissionStatus::Initiated);
            assert_eq!(correlator, "abc123");
            let listed: Vec<(DocumentRole, &str, &str)> = documents
                .iter()
                .map(|d| (d.role, d.data.document_name.as_str(), d.data.document_reference.as_str()))
                .collect();
            assert_eq!(
                listed,
                vec![
                    (DocumentRole::Ktp, "k_KTP", "k"),
                    (DocumentRole::Selfie, "s_SELFIE", "s"),
                    (DocumentRole::Nfc, "n_NFC", "n"),
                ]
            );
        }
        other => panic!("expected the creation of the row, got {:?}", other),
    }
    assert!(!state.is_finished());
    let (state, action) = state.step(IssuanceEvent::SubmissionCreated(Ok(())));
    assert!(state.is_finished());
    match action {
        IssuanceAction::Done { outcome: Ok(answer) } => {
            assert_eq!(answer.submission_id, "sub");
            assert_eq!(answer.documents.len(), 2);
            assert_eq!(answer.documents[0].document.document_url, "url-k");
            assert_eq!(answer.documents[0].document.document_reference, "k");
            assert_eq!(answer.documents[1].document.document_url, "url-s");
            assert_eq!(answer.documents[1].document.document_reference, "s");
            assert_eq!(answer.documents[1].document.expiry_in_seconds, "600");
        }
        other => panic!("expected the answer, got {:?}", other),
    }
}

#[test]
fn reverification_starts_with_the_selfie() {
    let (_, action) = IssuanceState::start(plan(SubmissionType::ON_DEMAND, "QUJD"));
    assert_eq!(
        action,
        IssuanceAction::IssueUploadUrl { object_name: "s_SELFIE".to_string(), ttl_seconds: 600 }
    );
    assert_eq!(plan(SubmissionType::ON_DEMAND, "QUJD").records().len(), 2);
}

#[test]
fn decoding_decides_between_upload_and_invalid_payload() {
    let (state, action) = IssuanceState::after_decoding(
        plan(SubmissionType::KYC, "ignored"),
        "url-k".to_string(),
        "url-s".to_string(),
        Some(vec![9, 8]),
    );
    assert!(!state.is_finished());
    assert_eq!(
        action,
        IssuanceAction::UploadObject {
            object_name: "n_NFC".to_string(),
            content: vec![9, 8],
            content_type: "image/jpeg".to_string(),
        }
    );
    let (state, action) = IssuanceState::after_decoding(
        plan(SubmissionType::KYC, "ignored"),
        "url-k".to_string(),
        "url-s".to_string(),
        None,
    );
    assert!(state.is_finished());
    match action {
        IssuanceAction::Done { outcome: Err(error) } => assert_eq!(error.kind, ErrorKind::InvalidPayload),
        other => panic!("expected a failure, got {:?}", other),
    }
}

#[test]
fn issuance_refuses_an_answer_it_did_not_ask_for() {
    let (state, _) = IssuanceState::start(plan(SubmissionType::KYC, "QUJD"));
    let (state, action) = state.step(IssuanceEvent::SubmissionCreated(Ok(())));
    assert!(state.is_finished());
    match action {
        IssuanceAction::Done { outcome: Err(error) } => {
            assert_eq!(error.kind, ErrorKind::System);
            assert_eq!(error.api_error().code, "1000");
            assert_eq!(error.cause, "SYSTEM_ERROR");
        }
        other => panic!("expected a failure, got {:?}", other),
    }
    let (state, action) = state.step(IssuanceEvent::ObjectUploaded(Ok(())));
    assert!(state.is_finished());
    assert!(matches!(action, IssuanceAction::Done { outcome: Err(_) }));
}

#[test]
fn upload_failure_is_a_storage_error() {
    let (state, _) = IssuanceState::start(plan(SubmissionType::ON_DEMAND, "QUJD"));
    let (state, _) = state.step(IssuanceEvent::UploadUrlIssued(Ok("url-s".to_string())));
    let (state, action) = state.step(IssuanceEvent::ObjectUploaded(Err("disk full".to_string())));
    assert!(state.is_finished());
    match action {
        IssuanceAction::Done { outcome: Err(error) } => {
            assert_eq!(error.kind, ErrorKind::Storage);
            assert_eq!(error.cause, "disk full");
        }
        other => panic!("expected a failure, got {:?}", other),
    }
}

#[test]
fn drawn_identifiers_are_four_different_uuids() {
    let drawn = draw_identifiers();
    let all = [&drawn.submission_id, &drawn.ktp_id, &drawn.selfie_id, &drawn.nfc_id];
    for (i, a) in all.iter().enumerate() {
        assert_eq!(a.len(), 36);
        for b in all.iter().skip(i + 1) {
            assert_ne!(a, b);
        }
    }
    assert_eq!(drawn.of(DocumentRole::Ktp), &drawn.ktp_id);
    assert_eq!(drawn.of(DocumentRole::Selfie), &drawn.selfie_id);
    assert_eq!(drawn.of(DocumentRole::Nfc), &drawn.nfc_id);
}

#[test]
fn processing_refuses_an_answer_it_did_not_ask_for() {
    let (state, action) = ProcessingState::start("550e8400-e29b-41d4-a716-446655440000".to_string());
    assert_eq!(
        action,
        ProcessingAction::FindSubmission {
            submission_id: "550e8400-e29b-41d4-a716-446655440000".to_string()
        }
    );
    assert!(!state.is_finished());
    let (state, action) = state.step(ProcessingEvent::ObjectChecked(true));
    assert!(state.is_finished());
    match action {
        ProcessingAction::Done { outcome: Err(error) } => assert_eq!(error.kind, ErrorKind::System),
        other => panic!("expected a failure, got {:?}", other),
    }
    let (state, action) = state.step(ProcessingEvent::StatusUpdated(Ok(())));
    assert!(state.is_finished());
    assert!(matches!(action, ProcessingAction::Done { outcome: Err(_) }));
}

#[test]
fn verdict_is_written_then_reported() {
    let state = ProcessingState::AwaitingComparison { submission_id: "sub".to_string() };
    let (state, action) = state.step(ProcessingEvent::Compared(Ok(FaceMatchVerdict { is_match: false })));
    assert_eq!(
        action,
        ProcessingAction::UpdateStatus {
            submission_id: "sub".to_string(),
            status: SubmissionStatus::Rejected
        }
    );
    let (state, action) = state.step(ProcessingEvent::StatusUpdated(Ok(())));
    assert!(state.is_finished());
    match action {
        ProcessingAction::Done { outcome: Ok(answer) } => assert_eq!(answer.submission_status, "REJECTED"),
        other => panic!("expected the answer, got {:?}", other),
    }
}

#[test]
fn failed_status_write_is_a_persistence_error() {
    let state = ProcessingState::AwaitingStatusUpdate { approved: true };
    let (state, action) = state.step(ProcessingEvent::StatusUpdated(Err("deadlock".to_string())));
    assert!(state.is_finished());
    match action {
        ProcessingAction::Done { outcome: Err(error) } => {
            assert_eq!(error.kind, ErrorKind::Persistence);
            assert_eq!(error.cause, "deadlock");
        }
        other => panic!("expected a failure, got {:?}", other),
    }
}

#[test]
fn branch_by_type_follows_the_selfie_url() {
    let (_, action) = ProcessingState::after_selfie_url(
        "sub".to_string(),
        Some(SubmissionType::KYC),
        "corr".to_string(),
        Some("n_NFC".to_string()),
        "url-s".to_string(),
    );
    assert_eq!(action, ProcessingAction::IssueViewUrl { object_name: "n_NFC".to_string() });
    let (_, action) = ProcessingState::after_selfie_url(
        "sub".to_string(),
        Some(SubmissionType::ON_DEMAND),
        "corr".to_string(),
        None,
        "url-s".to_string(),
    );
    assert_eq!(
        action,
        ProcessingAction::FindLatestByCorrelator {
            correlator: "corr".to_string(),
            status: SubmissionStatus::Approved
        }
    );
    let (state, action) =
        ProcessingState::after_selfie_url("sub".to_string(), None, "corr".to_string(), None, "u".to_string());
    assert!(state.is_finished());
    match action {
        ProcessingAction::Done { outcome: Err(error) } => {
            assert_eq!(error.kind, ErrorKind::InvalidSubmissionType)
        }
        other => panic!("expected a failure, got {:?}", other),
    }
}

#[test]
fn status_verdicts_follow_the_stored_status() {
    assert_eq!(verdict("APPROVED"), "KYC");
    assert_eq!(verdict("INITIATED"), "NOT_KYC");
    assert_eq!(verdict("REJECTED"), "NOT_KYC");
    assert_eq!(verdict("approved"), "NOT_KYC");
    assert_eq!(verdict(""), "NOT_KYC");
    assert_eq!(status_answer(Ok(Some("APPROVED".to_string()))).unwrap().submission_status, "KYC");
    assert_eq!(status_answer(Ok(Some("INITIATED".to_string()))).unwrap().submission_status, "NOT_KYC");
    assert_eq!(status_answer(Ok(None)).unwrap_err().kind, ErrorKind::NotFound);
    let failed = status_answer(Err("pool timed out".to_string())).unwrap_err();
    assert_eq!(failed.kind, ErrorKind::Persistence);
    assert_eq!(failed.cause, "pool timed out");
}

#[test]
fn status_lookup_cuts_the_correlator() {
    let lookup = status_lookup(SubmissionType::KYC, &"z".repeat(700));
    assert_eq!(lookup.submission_type, SubmissionType::KYC);
    assert_eq!(lookup.correlator, "z".repeat(500));
    assert_eq!(status_lookup(SubmissionType::ON_DEMAND, "abc123").correlator, "abc123");
}
