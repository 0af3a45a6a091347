use kyc_submissions::json::{
    array_of_texts, object_of_one, object_of_three, object_of_two, JsonMember, JsonValue,
};
use kyc_submissions::submissions::document_map::{
    document_map_json, document_name, map_usable, record_json, recorded_name,
};
use kyc_submissions::submissions::dto::presigned_urls_response::{DocumentRecord, SubmissionData};
use kyc_submissions::submissions::errors::{ErrorCategory, ErrorKind, SubmissionError};
use kyc_submissions::submissions::submission_controller::SubmissionType;
use kyc_submissions::submissions::vocabulary::{DocumentRole, SubmissionStatus};

fn member(key: &str, value: JsonValue) -> JsonMember {
    JsonMember { key: key.to_string(), value }
}

fn data(name: &str, reference: &str) -> SubmissionData {
    SubmissionData { document_name: name.to_string(), document_reference: reference.to_string() }
}

#[test]
fn member_lookup_finds_the_first_member_of_that_name() {
    let object = JsonValue::Object(vec![
        member("a", JsonValue::Integer(1)),
        member("b", JsonValue::Integer(2)),
        member("a", JsonValue::Integer(3)),
    ]);
    assert_eq!(object.member("a"), Some(&JsonValue::Integer(1)));
    assert_eq!(object.member("b"), Some(&JsonValue::Integer(2)));
    assert_eq!(object.member("c"), None);
    assert_eq!(JsonValue::Array(vec![JsonValue::Null]).member("a"), None);
    assert_eq!(JsonValue::Text("a".to_string()).member("a"), None);
}

#[test]
fn accessors_tell_the_kinds_apart() {
    assert_eq!(JsonValue::text("x").as_text(), Some(&"x".to_string()));
    assert_eq!(JsonValue::Integer(7).as_text(), None);
    assert_eq!(JsonValue::Integer(-7).as_integer(), Some(-7));
    assert_eq!(JsonValue::Number.as_integer(), None);
    assert_eq!(JsonValue::Bool(true).as_integer(), None);
    assert!(JsonValue::empty_object().is_object());
    assert!(!JsonValue::Null.is_object());
    assert_eq!(JsonValue::Array(vec![JsonValue::Null]).as_array(), Some(&vec![JsonValue::Null]));
    assert_eq!(JsonValue::empty_object().as_array(), None);
}

#[test]
fn builders_make_objects_with_the_given_members() {
    let one = object_of_one("a", JsonValue::Integer(1));
    assert_eq!(one, JsonValue::Object(vec![member("a", JsonValue::Integer(1))]));
    let two = object_of_two("a", JsonValue::Integer(1), "b", JsonValue::Null);
    assert_eq!(two.member("b"), Some(&JsonValue::Null));
    let three = object_of_three("a", JsonValue::Null, "b", JsonValue::Bool(false), "c", JsonValue::Number);
    assert_eq!(three.member("c"), Some(&JsonValue::Number));
    let texts = array_of_texts(&vec!["x".to_string(), "y".to_string()]);
    assert_eq!(
        texts,
        JsonValue::Array(vec![JsonValue::Text("x".to_string()), JsonValue::Text("y".to_string())])
    );
}

#[test]
fn record_is_written_with_name_and_reference() {
    assert_eq!(
        record_json(&data("id_SELFIE", "id")),
        JsonValue::Object(vec![
            member("documentName", JsonValue::Text("id_SELFIE".to_string())),
            member("documentReference", JsonValue::Text("id".to_string())),
        ])
    );
}

#[test]
fn document_map_is_read_back_as_written() {
    let records = vec![
        DocumentRecord { role: DocumentRole::Ktp, data: data("a_KTP", "a") },
        DocumentRecord { role: DocumentRole::Selfie, data: data("b_SELFIE", "b") },
        DocumentRecord { role: DocumentRole::Nfc, data: data("c_NFC", "c") },
    ];
    let written = document_map_json(&records);
    assert_eq!(document_name(&written, DocumentRole::Ktp), Some("a_KTP".to_string()));
    assert_eq!(document_name(&written, DocumentRole::Selfie), Some("b_SELFIE".to_string()));
    assert_eq!(document_name(&written, DocumentRole::Nfc), Some("c_NFC".to_string()));
    match &written {
        JsonValue::Object(members) => {
            let keys: Vec<&str> = members.iter().map(|m| m.key.as_str()).collect();
            assert_eq!(keys, vec!["KTP", "SELFIE", "NFC"]);
        }
        _ => panic!("the document map is an object"),
    }
    let partial = document_map_json(&records[1..2].to_vec());
    assert_eq!(document_name(&partial, DocumentRole::Ktp), None);
    assert_eq!(document_name(&partial, DocumentRole::Nfc), None);
}

#[test]
fn name_that_is_no_text_counts_as_empty() {
    let map = JsonValue::Object(vec![
        member("SELFIE", JsonValue::Object(vec![member("documentName", JsonValue::Integer(5))])),
        member("NFC", JsonValue::Object(vec![member("other", JsonValue::Null)])),
        member("KTP", JsonValue::Text("k".to_string())),
    ]);
    assert_eq!(document_name(&map, DocumentRole::Selfie), Some(String::new()));
    assert_eq!(document_name(&map, DocumentRole::Nfc), None);
    assert_eq!(document_name(&map, DocumentRole::Ktp), None);
}

#[test]
fn only_a_decoded_object_is_a_well_formed_map() {
    assert!(!map_usable(&None));
    assert!(map_usable(&Some(JsonValue::empty_object())));
    assert!(!map_usable(&Some(JsonValue::Array(Vec::new()))));
    assert!(!map_usable(&Some(JsonValue::Text("{}".to_string()))));
    assert_eq!(recorded_name(&None, DocumentRole::Selfie), None);
}

#[test]
fn vocabularies_have_their_stable_spellings() {
    assert_eq!(DocumentRole::Ktp.name(), "KTP");
    assert_eq!(DocumentRole::Selfie.name(), "SELFIE");
    assert_eq!(DocumentRole::Nfc.name(), "NFC");
    assert_eq!(DocumentRole::Ktp.suffix(), "_KTP");
    assert_eq!(DocumentRole::Selfie.suffix(), "_SELFIE");
    assert_eq!(DocumentRole::Nfc.suffix(), "_NFC");
    assert_eq!(SubmissionStatus::Initiated.name(), "INITIATED");
    assert_eq!(SubmissionStatus::Approved.name(), "APPROVED");
    assert_eq!(SubmissionStatus::Rejected.name(), "REJECTED");
    assert_eq!(SubmissionStatus::from_verdict(true), SubmissionStatus::Approved);
    assert_eq!(SubmissionStatus::from_verdict(false), SubmissionStatus::Rejected);
    assert!(SubmissionStatus::is_approved_text("APPROVED"));
    assert!(!SubmissionStatus::is_approved_text("approved"));
    assert_eq!(SubmissionType::KYC.to_string(), "KYC");
    assert_eq!(SubmissionType::ON_DEMAND.to_string(), "ON_DEMAND");
    assert_eq!(SubmissionType::ON_DEMAND.as_str(), "ON_DEMAND");
    assert_eq!(SubmissionType::parse("KYC"), Some(SubmissionType::KYC));
    assert_eq!(SubmissionType::parse("ON_DEMAND"), Some(SubmissionType::ON_DEMAND));
    assert_eq!(SubmissionType::parse("kyc"), None);
    assert_eq!(SubmissionType::parse(""), None);
}

#[test]
fn every_error_kind_has_its_code_cause_and_category() {
    let table = [
        (ErrorKind::NotFound, "1004", "SUBMISSION_NOT_FOUND", ErrorCategory::NotFound),
        (ErrorKind::InvalidData, "1003", "INVALID_SUBMISSION_DATA", ErrorCategory::Validation),
        (ErrorKind::SelfieMissing, "1004", "SELFIE_DOES_NOT_EXIST", ErrorCategory::NotFound),
        (ErrorKind::NfcMissing, "1004", "NFC_DOES_NOT_EXIST", ErrorCategory::NotFound),
        (ErrorKind::SubmissionNotFound, "1004", "APPROVED_SUBMISSION_NOT_FOUND", ErrorCategory::NotFound),
        (ErrorKind::InvalidSubmissionType, "1003", "INVALID_SUBMISSION_TYPE", ErrorCategory::Validation),
        (ErrorKind::InvalidPayload, "1003", "INVALID_PAYLOAD", ErrorCategory::Validation),
        (ErrorKind::System, "1000", "SYSTEM_ERROR", ErrorCategory::Dependency),
    ];
    for (kind, code, cause, category) in table {
        let error = SubmissionError::of(kind);
        assert_eq!(error.kind, kind);
        assert_eq!(error.cause, cause);
        assert_eq!(kind.code(), code);
        assert_eq!(kind.category(), category);
        let reported = error.api_errors();
        assert_eq!(reported.len(), 1);
        assert_eq!(reported[0].entity, "SOCIO_ECHO_BE");
        assert_eq!(reported[0].code, code);
        assert_eq!(reported[0].cause, cause);
    }
    for (kind, code) in [
        (ErrorKind::Storage, "1001"),
        (ErrorKind::Persistence, "1002"),
        (ErrorKind::ComparisonFailed, "1006"),
    ] {
        let error = SubmissionError::dependency(kind, "connection reset".to_string());
        assert_eq!(error.api_error().code, code);
        assert_eq!(error.api_error().cause, "connection reset");
        assert_eq!(kind.category(), ErrorCategory::Dependency);
    }
}

#[test]
fn code_tells_the_category_of_every_kind() {
    let kinds = [
        ErrorKind::NotFound,
        ErrorKind::InvalidData,
        ErrorKind::SelfieMissing,
        ErrorKind::NfcMissing,
        ErrorKind::SubmissionNotFound,
        ErrorKind::InvalidSubmissionType,
        ErrorKind::InvalidPayload,
        ErrorKind::Storage,
        ErrorKind::Persistence,
        ErrorKind::ComparisonFailed,
        ErrorKind::System,
    ];
    for kind in kinds {
        let expected = match kind.code() {
            "1003" => ErrorCategory::Validation,
            "1004" => ErrorCategory::NotFound,
            _ => ErrorCategory::Dependency,
        };
        assert_eq!(kind.category(), expected);
    }
}

#[test]
fn missing_approved_submission_is_reported_unlike_an_unknown_id() {
    let unknown = SubmissionError::of(ErrorKind::NotFound).api_error();
    let unapproved = SubmissionError::of(ErrorKind::SubmissionNotFound).api_error();
    assert_ne!(unknown, unapproved);
    assert_ne!(unknown.cause, unapproved.cause);
    assert_eq!(unknown.cause, "SUBMISSION_NOT_FOUND");
    assert_eq!(unapproved.cause, "APPROVED_SUBMISSION_NOT_FOUND");
    assert_eq!(unknown.code, unapproved.code);
}
