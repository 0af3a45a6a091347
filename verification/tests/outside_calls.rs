use kyc_submissions::ident::{fresh_identifier, is_uuid_text};
use kyc_submissions::json::{decode, decode_stored, JsonMember, JsonValue};
use kyc_submissions::services::auth_service::{sign_in_allowed, AuthError, PasswordCheck};
use kyc_submissions::services::password::{check_password, hash_password};
use kyc_submissions::submissions::document_map::recorded_name;
use kyc_submissions::submissions::errors::ErrorKind;
use kyc_submissions::submissions::processing::{
    ApprovedRecord, ProcessingAction, ProcessingState, SubmissionRecord,
};
use kyc_submissions::submissions::vocabulary::DocumentRole;
use kyc_submissions::models::user::{LoginRequest, RegisterRequest};
use kyc_submissions::payload::{decode_inline_image, payload_text};
use kyc_submissions::validation::{has_length_of, is_email};

#[test]
fn uuid_texts_in_the_four_forms_are_accepted() {
    assert!(is_uuid_text("550e8400-e29b-41d4-a716-446655440000"));
    assert!(is_uuid_text("550E8400-E29B-41D4-A716-446655440000"));
    assert!(is_uuid_text("550e8400e29b41d4a716446655440000"));
    assert!(is_uuid_text("{550e8400-e29b-41d4-a716-446655440000}"));
    assert!(is_uuid_text("urn:uuid:550e8400-e29b-41d4-a716-446655440000"));
    assert!(is_uuid_text("URN:UUID:550e8400-e29b-41d4-a716-446655440000"));
}

#[test]
fn other_texts_are_no_uuid() {
    assert!(!is_uuid_text(""));
    assert!(!is_uuid_text("not-a-uuid"));
    assert!(!is_uuid_text("550e8400-e29b-41d4-a716-44665544000"));
    assert!(!is_uuid_text("550e8400-e29b-41d4-a716-44665544000g"));
    assert!(!is_uuid_text("550e8400e29b-41d4-a716-4466554400000"));
    assert!(!is_uuid_text("[550e8400-e29b-41d4-a716-446655440000]"));
    assert!(!is_uuid_text("{550e8400e29b41d4a716446655440000}"));
    assert!(!is_uuid_text("urn-uuid:550e8400-e29b-41d4-a716-446655440000"));
    assert!(!is_uuid_text("550e8400-e29b-41d4-a716-4466554400００"));
}

#[test]
fn fresh_identifiers_are_hyphenated_lower_case_and_differ() {
    let a = fresh_identifier();
    let b = fresh_identifier();
    assert_ne!(a, b);
    assert_eq!(a.len(), 36);
    for (i, c) in a.chars().enumerate() {
        if i == 8 || i == 13 || i == 18 || i == 23 {
            assert_eq!(c, '-');
        } else {
            assert!(c.is_ascii_digit() || ('a'..='f').contains(&c));
        }
    }
    assert!(is_uuid_text(&a));
}

#[test]
fn base64_payload_is_decoded() {
    assert_eq!(decode_inline_image("aGVsbG8="), Some(b"hello".to_vec()));
    assert_eq!(decode_inline_image("/9j/4A=="), Some(vec![0xff, 0xd8, 0xff, 0xe0]));
    assert_eq!(decode_inline_image(""), Some(Vec::new()));
    assert_eq!(decode_inline_image("data:image/jpeg;base64,aGVsbG8="), Some(b"hello".to_vec()));
}

#[test]
fn payload_that_is_no_padded_base64_is_refused() {
    assert_eq!(decode_inline_image("abc123"), None);
    assert_eq!(decode_inline_image("aGVsbG8"), None);
    assert_eq!(decode_inline_image("aGVs bG8="), None);
    assert_eq!(decode_inline_image("data:image/png;base64,aGVsbG8="), None);
    assert_eq!(decode_inline_image("xdata:image/jpeg;base64,aGVsbG8="), None);
}

#[test]
fn marker_is_stripped_from_payload_text() {
    assert_eq!(payload_text("data:image/jpeg;base64,QUJD"), "QUJD");
    assert_eq!(payload_text("QUJD"), "QUJD");
    assert_eq!(payload_text("data:image/jpeg;base64,"), "");
}

#[test]
fn email_addresses_are_checked() {
    assert!(is_email("user@example.com"));
    assert!(is_email("first.last+tag@sub.example.co.id"));
    assert!(!is_email(""));
    assert!(!is_email("no-at-sign"));
    assert!(!is_email("user@"));
    assert!(!is_email("@example.com"));
    assert!(!is_email("user name@example.com"));
}

#[test]
fn length_counts_characters() {
    assert!(has_length_of("secret", 6));
    assert!(!has_length_of("secre", 6));
    assert!(has_length_of("pässwö", 6));
    assert!(has_length_of("", 0));
}

#[test]
fn registration_needs_address_password_and_name() {
    let ok = RegisterRequest {
        email: "user@example.com".to_string(),
        password: "secret".to_string(),
        name: "U".to_string(),
    };
    assert!(ok.is_valid());
    let mut bad = ok.clone();
    bad.password = "short".to_string();
    assert!(!bad.is_valid());
    let mut bad = ok.clone();
    bad.name = String::new();
    assert!(!bad.is_valid());
    let mut bad = ok.clone();
    bad.email = "nobody".to_string();
    assert!(!bad.is_valid());
    assert!(!ok.is_valid_with(false));
}

#[test]
fn sign_in_needs_address_and_password() {
    let ok = LoginRequest { email: "user@example.com".to_string(), password: "secret".to_string() };
    assert!(ok.is_valid());
    assert!(!LoginRequest { email: "user".to_string(), password: "secret".to_string() }.is_valid());
    assert!(!LoginRequest { email: "user@example.com".to_string(), password: "12345".to_string() }
        .is_valid());
}

#[test]
fn password_signs_in_with_its_own_hash_only() {
    let hash = hash_password("correct horse").unwrap();
    assert!(hash.starts_with("$argon2id$"));
    assert_ne!(hash, "correct horse");
    assert_ne!(hash, hash_password("correct horse").unwrap());
    assert_eq!(check_password("correct horse", &hash), PasswordCheck::Matches);
    assert_eq!(check_password("wrong horse", &hash), PasswordCheck::Mismatch);
    assert_eq!(check_password("", &hash), PasswordCheck::Mismatch);
}

#[test]
fn stored_hash_that_is_no_phc_string_is_unreadable() {
    for bad in ["", "plain-text-password", "argon2id$v=19$m=19456"] {
        match check_password("secret", bad) {
            PasswordCheck::Unreadable { detail } => {
                assert!(!detail.is_empty());
                let refused = sign_in_allowed(PasswordCheck::Unreadable { detail: detail.clone() });
                assert_eq!(refused, Err(AuthError::UnreadableHash { detail }));
            }
            other => panic!("expected an unreadable hash, got {:?}", other),
        }
    }
}

#[test]
fn hash_of_another_password_is_a_mismatch() {
    let hash = "$argon2id$v=19$m=16,t=2,p=1$c29tZXNhbHQ$9sTbSlTio3Biev89thdrlKKiCaYsjjYVJxGAL3swxpQ";
    assert_ne!(check_password("not the password", hash), PasswordCheck::Matches);
    assert!(matches!(
        check_password("not the password", hash),
        PasswordCheck::Mismatch
    ));
}

#[test]
fn json_text_is_decoded_to_a_tree() {
    let tree = decode(r#"{"b": [1, 2.5, "x", null, true], "a": {"n": -7}, "big": 18446744073709551615}"#)
        .unwrap();
    assert_eq!(
        tree.member("b"),
        Some(&JsonValue::Array(vec![
            JsonValue::Integer(1),
            JsonValue::Number,
            JsonValue::Text("x".to_string()),
            JsonValue::Null,
            JsonValue::Bool(true),
        ]))
    );
    assert_eq!(
        tree.member("a"),
        Some(&JsonValue::Object(vec![JsonMember {
            key: "n".to_string(),
            value: JsonValue::Integer(-7)
        }]))
    );
    assert_eq!(tree.member("big"), Some(&JsonValue::Number));
    assert_eq!(decode("\"{}\""), Ok(JsonValue::Text("{}".to_string())));
    assert!(decode("{").is_err());
    assert!(decode("").is_err());
    assert!(!decode("{").unwrap_err().is_empty());
    assert_eq!(decode_stored(None), None);
    assert_eq!(decode_stored(Some("not json".to_string())), None);
    assert_eq!(decode_stored(Some("[]".to_string())), Some(JsonValue::Array(Vec::new())));
}

#[test]
fn rows_are_read_with_their_document_map_decoded() {
    let stored = r#"{"SELFIE":{"documentName":"s_SELFIE","documentReference":"s"}}"#;
    let row = SubmissionRecord::from_row(
        "KYC".to_string(),
        Some("abc123".to_string()),
        Some(stored.to_string()),
    );
    assert_eq!(row.submission_type, "KYC");
    assert_eq!(row.nfc_identifier, Some("abc123".to_string()));
    assert_eq!(recorded_name(&row.submission_data, DocumentRole::Selfie), Some("s_SELFIE".to_string()));
    assert_eq!(recorded_name(&row.submission_data, DocumentRole::Nfc), None);
    let broken = SubmissionRecord::from_row("KYC".to_string(), None, Some("{broken".to_string()));
    assert_eq!(broken.submission_data, None);
    assert_eq!(broken.nfc_identifier, None);
    let (state, action) = ProcessingState::after_submission("sub".to_string(), Ok(Some(broken)));
    assert!(state.is_finished());
    match action {
        ProcessingAction::Done { outcome: Err(error) } => {
            assert_eq!(error.kind, ErrorKind::InvalidData);
            assert_eq!(error.cause, "INVALID_SUBMISSION_DATA");
        }
        other => panic!("expected a failure, got {:?}", other),
    }
    let approved = ApprovedRecord::from_row(Some(stored.to_string()));
    assert_eq!(recorded_name(&approved.submission_data, DocumentRole::Selfie), Some("s_SELFIE".to_string()));
    assert_eq!(ApprovedRecord::from_row(None).submission_data, None);
}
