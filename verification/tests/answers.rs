use kyc_submissions::controllers::auth::AuthFailure;
use kyc_submissions::controllers::dashboard::{
    city_count, city_counts, city_list, missing_cities, reply_unreadable, search_failed,
    search_request, search_url, summary, unauthorized,
};
use kyc_submissions::http::{is_success, HttpStatus, Reply};
use kyc_submissions::json::{JsonMember, JsonValue};
use kyc_submissions::models::user::{ApiError, ApiResponse};
use kyc_submissions::services::auth_service::{
    registration_allowed, sign_in_allowed, token_claims, unknown_account, AuthError, Claims,
    PasswordCheck, TOKEN_LIFETIME_SECONDS,
};
use kyc_submissions::services::face_match_service::{
    compare_endpoint, comparison_counter, comparison_outcome, comparison_request,
    comparison_timer, submission_header, ComparisonFailure, FaceMatchVerdict,
};
use kyc_submissions::services::metrics_service::{
    endpoint_tags, issuance_counter, issuance_tags, issuance_timer, metric_name,
    processing_counter, processing_timer, tag, tags_text,
};
use kyc_submissions::commons::minio_service::{
    upload_content_type, view_content_type, VIEW_URL_TTL_SECONDS,
};
use kyc_submissions::config::Config;
use kyc_submissions::submissions::errors::{ErrorKind, SubmissionError};
use kyc_submissions::submissions::submission_controller::{
    any_code, comparison_failed_reply, failure_reply, failure_status,
    get_submission_status_reply, invalid_request_body, presigned_urls_reply,
    process_submission_reply, status_query_type,
    GetSubmissionStatusResponse, ProcessSubmissionResponse, SubmissionType,
};

fn member(key: &str, value: JsonValue) -> JsonMember {
    JsonMember { key: key.to_string(), value }
}

fn bucket(key: JsonValue, count: JsonValue) -> JsonValue {
    JsonValue::Object(vec![member("key", key), member("doc_count", count)])
}

fn search_reply(buckets: Vec<JsonValue>) -> JsonValue {
    JsonValue::Object(vec![
        member("took", JsonValue::Integer(3)),
        member(
            "aggregations",
            JsonValue::Object(vec![member(
                "cities_count",
                JsonValue::Object(vec![member("buckets", JsonValue::Array(buckets))]),
            )]),
        ),
    ])
}

fn text(s: &str) -> JsonValue {
    JsonValue::Text(s.to_string())
}

#[test]
fn status_codes_are_the_usual_ones() {
    assert_eq!(HttpStatus::Success.code(), 200);
    assert_eq!(HttpStatus::BadRequest.code(), 400);
    assert_eq!(HttpStatus::Unauthorized.code(), 401);
    assert_eq!(HttpStatus::UnprocessableEntity.code(), 422);
    assert_eq!(HttpStatus::InternalServerError.code(), 500);
    assert!(is_success(200));
    assert!(is_success(299));
    assert!(!is_success(199));
    assert!(!is_success(300));
    assert!(!is_success(404));
}

#[test]
fn failures_are_answered_with_the_status_of_their_class() {
    let table = [
        (ErrorKind::NotFound, HttpStatus::UnprocessableEntity),
        (ErrorKind::SelfieMissing, HttpStatus::UnprocessableEntity),
        (ErrorKind::NfcMissing, HttpStatus::UnprocessableEntity),
        (ErrorKind::SubmissionNotFound, HttpStatus::UnprocessableEntity),
        (ErrorKind::InvalidData, HttpStatus::BadRequest),
        (ErrorKind::InvalidSubmissionType, HttpStatus::BadRequest),
        (ErrorKind::InvalidPayload, HttpStatus::BadRequest),
        (ErrorKind::System, HttpStatus::InternalServerError),
    ];
    for (kind, status) in table {
        let reply = process_submission_reply(Err(SubmissionError::of(kind)));
        assert_eq!(reply.status, status);
        assert!(!reply.body.success);
        assert!(reply.body.data.is_none());
        assert_eq!(reply.body.errors.unwrap(), SubmissionError::of(kind).api_errors());
        assert_eq!(presigned_urls_reply(Err(SubmissionError::of(kind))).status, status);
        assert_eq!(get_submission_status_reply(Err(SubmissionError::of(kind))).status, status);
        let reply: Reply<()> = failure_reply(&SubmissionError::of(kind));
        assert_eq!(reply.status, status);
    }
    for kind in [ErrorKind::Storage, ErrorKind::Persistence, ErrorKind::ComparisonFailed] {
        let error = SubmissionError::dependency(kind, "x".to_string());
        let reply = process_submission_reply(Err(error.clone()));
        assert_eq!(reply.status, HttpStatus::InternalServerError);
        assert_eq!(presigned_urls_reply(Err(error.clone())).status, HttpStatus::InternalServerError);
        assert_eq!(get_submission_status_reply(Err(error)).status, HttpStatus::InternalServerError);
    }
    let ok = process_submission_reply(Ok(ProcessSubmissionResponse {
        submission_status: "APPROVED".to_string(),
    }));
    assert_eq!(ok.status, HttpStatus::Success);
    assert!(ok.body.success);
    assert_eq!(ok.body.data.unwrap().submission_status, "APPROVED");
    assert!(ok.body.errors.is_none());
}

#[test]
fn failure_status_is_chosen_from_the_codes() {
    let errors = vec![
        ApiError::new("1001", "a".to_string()),
        ApiError::new("1003", "b".to_string()),
        ApiError::new("1004", "c".to_string()),
    ];
    assert!(any_code(&errors, "1004"));
    assert!(!any_code(&errors, "1006"));
    assert_eq!(failure_status(&errors), HttpStatus::UnprocessableEntity);
    assert_eq!(failure_status(&errors[..2].to_vec()), HttpStatus::BadRequest);
    assert_eq!(failure_status(&errors[..1].to_vec()), HttpStatus::InternalServerError);
    assert_eq!(failure_status(&Vec::new()), HttpStatus::InternalServerError);
}

#[test]
fn missing_submission_is_the_callers_error_at_the_inquiry() {
    let reply = get_submission_status_reply(Err(SubmissionError::of(ErrorKind::NotFound)));
    assert_eq!(reply.status, HttpStatus::UnprocessableEntity);
    assert_eq!(reply.status.code(), 422);
    let errors = reply.body.errors.unwrap();
    assert_eq!(errors[0].code, "1004");
    assert_eq!(errors[0].cause, "SUBMISSION_NOT_FOUND");
    let failed = get_submission_status_reply(Err(SubmissionError::dependency(
        ErrorKind::Persistence,
        "pool timed out".to_string(),
    )));
    assert_eq!(failed.status, HttpStatus::InternalServerError);
    assert_eq!(failed.body.errors.unwrap()[0].code, "1002");
    let reply = get_submission_status_reply(Ok(GetSubmissionStatusResponse {
        submission_status: "KYC".to_string(),
    }));
    assert_eq!(reply.status, HttpStatus::Success);
    assert_eq!(reply.body.data.unwrap().submission_status, "KYC");
}

#[test]
fn payload_that_does_not_decode_is_the_callers_error() {
    let reply = presigned_urls_reply(Err(SubmissionError::of(ErrorKind::InvalidPayload)));
    assert_eq!(reply.status, HttpStatus::BadRequest);
    assert_eq!(reply.body.errors.unwrap()[0].code, "1003");
}

#[test]
fn exchange_with_the_comparator_is_judged_in_order() {
    let verdict = FaceMatchVerdict { is_match: true };
    assert_eq!(
        comparison_outcome(Err("timeout".to_string()), Some(Ok(verdict))),
        Err(ComparisonFailure::Transport { detail: "timeout".to_string() })
    );
    assert_eq!(
        comparison_outcome(Ok((502, "502 Bad Gateway".to_string())), Some(Ok(verdict))),
        Err(ComparisonFailure::Status { status: "502 Bad Gateway".to_string() })
    );
    assert_eq!(
        comparison_outcome(Ok((199, "199".to_string())), None),
        Err(ComparisonFailure::Status { status: "199".to_string() })
    );
    assert_eq!(
        comparison_outcome(Ok((200, "200 OK".to_string())), None),
        Err(ComparisonFailure::Unreadable { detail: String::new() })
    );
    assert_eq!(
        comparison_outcome(Ok((200, "200 OK".to_string())), Some(Err("EOF".to_string()))),
        Err(ComparisonFailure::Unreadable { detail: "EOF".to_string() })
    );
    assert_eq!(comparison_outcome(Ok((200, "200 OK".to_string())), Some(Ok(verdict))), Ok(verdict));
    assert_eq!(
        comparison_outcome(
            Ok((299, "299".to_string())),
            Some(Ok(FaceMatchVerdict { is_match: false }))
        ),
        Ok(FaceMatchVerdict { is_match: false })
    );
}

#[test]
fn unreadable_body_is_a_bad_request() {
    let reply: Reply<()> = invalid_request_body("missing field `submissionType`");
    assert_eq!(reply.status, HttpStatus::BadRequest);
    let errors = reply.body.errors.unwrap();
    assert_eq!(errors.len(), 1);
    assert_eq!(errors[0].entity, "SOCIO_ECHO_BE");
    assert_eq!(errors[0].code, "1003");
    assert_eq!(errors[0].cause, "INVALID_REQUEST_BODY: missing field `submissionType`");
}

#[test]
fn failed_comparison_is_a_server_error() {
    let reply: Reply<()> = comparison_failed_reply("HTTP request failed: refused".to_string());
    assert_eq!(reply.status, HttpStatus::InternalServerError);
    let errors = reply.body.errors.unwrap();
    assert_eq!(errors[0].code, "1006");
    assert_eq!(errors[0].cause, "HTTP request failed: refused");
}

#[test]
fn either_type_can_be_inquired() {
    assert_eq!(status_query_type::<()>("KYC").unwrap(), SubmissionType::KYC);
    assert_eq!(status_query_type::<()>("ON_DEMAND").unwrap(), SubmissionType::ON_DEMAND);
    for other in ["on_demand", "kyc", "", "KYC ", "PASSPORT"] {
        let reply = status_query_type::<()>(other).unwrap_err();
        assert_eq!(reply.status, HttpStatus::BadRequest);
        let errors = reply.body.errors.unwrap();
        assert_eq!(errors[0].code, "1003");
        assert_eq!(errors[0].cause, "INVALID_SUBMISSION_TYPE");
    }
}

#[test]
fn envelopes_hold_data_or_errors() {
    let ok: ApiResponse<u8> = ApiResponse::succeeded(7);
    assert_eq!(ok, ApiResponse { success: true, data: Some(7), errors: None });
    let failed: ApiResponse<u8> = ApiResponse::failed(vec![ApiError::new("1000", "c".to_string())]);
    assert!(!failed.success);
    assert_eq!(failed.data, None);
    assert_eq!(
        failed.errors.unwrap(),
        vec![ApiError {
            entity: "SOCIO_ECHO_BE".to_string(),
            code: "1000".to_string(),
            cause: "c".to_string()
        }]
    );
}

#[test]
fn metric_names_carry_their_tags() {
    assert_eq!(metric_name("api_error", None), "api_error");
    assert_eq!(metric_name("api_error", Some(&Vec::new())), "api_error#");
    let one = vec![tag("endpoint", "face_match")];
    assert_eq!(metric_name("face_match.error", Some(&one)), "face_match.error#endpoint=face_match");
    let two = issuance_tags(SubmissionType::ON_DEMAND);
    assert_eq!(tags_text(&two), "endpoint=presigned_urls,submission_type=ON_DEMAND");
    assert_eq!(
        metric_name("api_success", Some(&two)),
        "api_success#endpoint=presigned_urls,submission_type=ON_DEMAND"
    );
    let three = vec![tag("a", "1"), tag("b", ""), tag("", "3")];
    assert_eq!(tags_text(&three), "a=1,b=,=3");
    assert_eq!(tags_text(&endpoint_tags("process_submission")), "endpoint=process_submission");
}

#[test]
fn counters_follow_the_outcome() {
    assert_eq!(issuance_counter(true), "api_success");
    assert_eq!(issuance_counter(false), "api_error");
    assert_eq!(issuance_timer(), "api_latency");
    assert_eq!(processing_counter(None), Some("process_submission.success"));
    assert_eq!(
        processing_counter(Some(&SubmissionError::of(ErrorKind::SelfieMissing))),
        Some("process_submission.error")
    );
    assert_eq!(processing_counter(Some(&SubmissionError::of(ErrorKind::InvalidSubmissionType))), None);
    assert_eq!(processing_timer(), "process_submission.duration");
    assert_eq!(comparison_counter(None), "face_match.error");
    assert_eq!(comparison_counter(Some(true)), "face_match.success");
    assert_eq!(comparison_counter(Some(false)), "face_match.failure");
    assert_eq!(comparison_timer(), "face_match.duration");
}

#[test]
fn comparator_terms_are_fixed() {
    assert_eq!(compare_endpoint("http://faces:8000"), "http://faces:8000/compare-faces");
    assert_eq!(submission_header(), "x-submission-id");
    let request = comparison_request("u1".to_string(), "u2".to_string(), "sub".to_string());
    assert_eq!(request.image1_url, "u1");
    assert_eq!(request.image2_url, "u2");
    assert_eq!(request.submission_id, "sub");
    assert_eq!(
        ComparisonFailure::Transport { detail: "timeout".to_string() }.message(),
        "HTTP request failed: timeout"
    );
    assert_eq!(
        ComparisonFailure::Status { status: "502 Bad Gateway".to_string() }.message(),
        "Face match API returned error status: 502 Bad Gateway"
    );
    assert_eq!(
        ComparisonFailure::Unreadable { detail: "EOF".to_string() }.message(),
        "Failed to parse response: EOF"
    );
}

#[test]
fn object_store_terms_are_fixed() {
    assert_eq!(VIEW_URL_TTL_SECONDS, 3600);
    assert_eq!(view_content_type(), "image/jpg");
    assert_eq!(upload_content_type(), "image/jpeg");
    let config = Config::new("postgres://db".to_string(), "secret".to_string());
    assert_eq!(config.database_url, "postgres://db");
    assert_eq!(config.jwt_secret, "secret");
}

#[test]
fn cities_are_split_at_commas_and_trimmed() {
    assert_eq!(city_list("Jakarta, Bandung ,Surabaya"), vec!["Jakarta", "Bandung", "Surabaya"]);
    assert_eq!(city_list(""), vec![""]);
    assert_eq!(city_list(" Medan "), vec!["Medan"]);
    assert_eq!(city_list("a,,b"), vec!["a", "", "b"]);
}

#[test]
fn search_request_counts_the_given_cities() {
    let request = search_request(&vec!["Jakarta".to_string(), "Bandung".to_string()]);
    assert_eq!(request.member("size"), Some(&JsonValue::Integer(0)));
    let terms = request
        .member("aggs")
        .and_then(|v| v.member("cities_count"))
        .and_then(|v| v.member("terms"))
        .unwrap();
    assert_eq!(terms.member("field"), Some(&text("cities.keyword")));
    assert_eq!(terms.member("size"), Some(&JsonValue::Integer(10)));
    assert_eq!(
        terms.member("include"),
        Some(&JsonValue::Array(vec![text("Jakarta"), text("Bandung")]))
    );
    let filters = request
        .member("query")
        .and_then(|v| v.member("bool"))
        .and_then(|v| v.member("filter"))
        .and_then(|v| v.as_array())
        .unwrap();
    assert_eq!(filters.len(), 1);
    let range = filters[0].member("range").and_then(|v| v.member("published_at")).unwrap();
    assert_eq!(range.member("gte"), Some(&text("now-100w/w")));
    assert_eq!(range.member("lt"), Some(&text("now/w")));
    assert_eq!(search_url("https://es:9200"), "https://es:9200/media-online-*/_search?pretty");
}

#[test]
fn counts_are_read_from_the_buckets() {
    let reply = search_reply(vec![
        bucket(text("Jakarta"), JsonValue::Integer(12)),
        bucket(text("Bandung"), JsonValue::Integer(5)),
        bucket(JsonValue::Integer(1), JsonValue::Integer(99)),
        bucket(text("Medan"), JsonValue::Number),
        bucket(text("Jakarta"), JsonValue::Integer(14)),
    ]);
    assert_eq!(city_count(&reply, "Jakarta"), 14);
    assert_eq!(city_count(&reply, "Bandung"), 5);
    assert_eq!(city_count(&reply, "Medan"), 0);
    assert_eq!(city_count(&reply, "Surabaya"), 0);
    assert_eq!(city_count(&JsonValue::Null, "Jakarta"), 0);
    assert_eq!(city_count(&JsonValue::empty_object(), "Jakarta"), 0);
    let cities: Vec<String> =
        ["Bandung", "Surabaya", "Jakarta", "Bandung"].iter().map(|c| c.to_string()).collect();
    let data = city_counts(&reply, &cities);
    let listed: Vec<(&str, i64)> = data.cities.iter().map(|c| (c.city.as_str(), c.count)).collect();
    assert_eq!(listed, vec![("Bandung", 5), ("Surabaya", 0), ("Jakarta", 14)]);
    let answer = summary(&reply, &cities);
    assert_eq!(answer.status, HttpStatus::Success);
    assert!(answer.body.success);
    assert_eq!(answer.body.data.unwrap(), data);
    assert!(answer.body.errors.is_none());
}

#[test]
fn summary_failures_have_their_codes() {
    let table = [
        (unauthorized(), HttpStatus::Unauthorized, "401", "MISSING_OR_INVALID_TOKEN".to_string()),
        (
            missing_cities(),
            HttpStatus::BadRequest,
            "1003",
            "Query param 'cities' is required".to_string(),
        ),
        (
            search_failed("refused"),
            HttpStatus::InternalServerError,
            "100",
            "ELASTIC_REQUEST_ERROR: refused".to_string(),
        ),
        (
            reply_unreadable("EOF"),
            HttpStatus::InternalServerError,
            "100",
            "ELASTIC_PARSE_ERROR: EOF".to_string(),
        ),
    ];
    for (reply, status, code, message) in table {
        assert_eq!(reply.status, status);
        assert!(!reply.body.success);
        assert!(reply.body.data.is_none());
        let errors = reply.body.errors.unwrap();
        assert_eq!(errors.len(), 1);
        assert_eq!(errors[0].code, code);
        assert_eq!(errors[0].entity, "SOCIO_ECHO");
        assert_eq!(errors[0].message, message);
    }
}

#[test]
fn account_failures_are_classified_by_their_message() {
    assert_eq!(AuthFailure::of_registration("User already exists"), AuthFailure::UserExists);
    assert_eq!(AuthFailure::of_registration("pool timed out"), AuthFailure::System);
    assert_eq!(AuthFailure::of_sign_in("Invalid email or password"), AuthFailure::InvalidCredentials);
    assert_eq!(AuthFailure::of_sign_in("Invalid password hash: x"), AuthFailure::System);
    let table = [
        (AuthFailure::Rejected, HttpStatus::UnprocessableEntity, "1001", "INVALID_EMAIL_OR_PASSWORD", None),
        (AuthFailure::UserExists, HttpStatus::UnprocessableEntity, "1002", "USER_ALREADY_EXISTS", Some("user_exists")),
        (
            AuthFailure::InvalidCredentials,
            HttpStatus::UnprocessableEntity,
            "1001",
            "INVALID_EMAIL_OR_PASSWORD",
            Some("invalid_credentials"),
        ),
        (AuthFailure::System, HttpStatus::InternalServerError, "1000", "SYSTEM_ERROR", Some("system_error")),
    ];
    for (failure, status, code, cause, counted) in table {
        let reply: Reply<()> = failure.reply();
        assert_eq!(reply.status, status);
        let errors = reply.body.errors.unwrap();
        assert_eq!(errors.len(), 1);
        assert_eq!(errors[0].entity, "SOCIO_ECHO_BE");
        assert_eq!(errors[0].code, code);
        assert_eq!(errors[0].cause, cause);
        assert_eq!(failure.tag(), counted);
    }
}

#[test]
fn account_decisions_follow_the_lookups() {
    assert_eq!(registration_allowed(false), Ok(()));
    assert_eq!(registration_allowed(true), Err(AuthError::UserExists));
    assert_eq!(unknown_account(), AuthError::InvalidCredentials);
    assert_eq!(sign_in_allowed(PasswordCheck::Matches), Ok(()));
    assert_eq!(sign_in_allowed(PasswordCheck::Mismatch), Err(AuthError::InvalidCredentials));
    assert_eq!(
        sign_in_allowed(PasswordCheck::Unreadable { detail: "bad".to_string() }),
        Err(AuthError::UnreadableHash { detail: "bad".to_string() })
    );
    assert_eq!(AuthError::UserExists.message(), "User already exists");
    assert_eq!(AuthError::InvalidCredentials.message(), "Invalid email or password");
    assert_eq!(
        AuthError::UnreadableHash { detail: "bad".to_string() }.message(),
        "Invalid password hash: bad"
    );
    assert_eq!(AuthError::System { cause: "down".to_string() }.message(), "down");
}

#[test]
fn token_expires_a_day_after_it_is_issued() {
    assert_eq!(TOKEN_LIFETIME_SECONDS, 24 * 60 * 60);
    assert_eq!(token_claims(7, 1_700_000_000), Some(Claims { sub: 7, exp: 1_700_086_400 }));
    assert_eq!(token_claims(7, i64::MAX - 86_400), Some(Claims { sub: 7, exp: i64::MAX }));
    assert_eq!(token_claims(7, i64::MAX - 86_399), None);
    assert_eq!(token_claims(-1, -86_400), Some(Claims { sub: -1, exp: 0 }));
}
