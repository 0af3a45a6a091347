use kyc_submissions::commons::minio_service::normalize_endpoint;
use kyc_submissions::submissions::issuance::{normalize_correlator, object_name};
use kyc_submissions::submissions::vocabulary::DocumentRole;
use kyc_submissions::text::{chars_of, join, same_text, split, strip_prefix, trim, truncate_chars};

#[test]
fn truncation_keeps_short_text() {
    assert_eq!(truncate_chars("abc", 5), "abc");
    assert_eq!(truncate_chars("abc", 3), "abc");
    assert_eq!(truncate_chars("", 0), "");
}

#[test]
fn truncation_cuts_by_characters_not_bytes() {
    assert_eq!(truncate_chars("héllo wörld", 4), "héll");
    assert_eq!(truncate_chars("日本語のテキスト", 3), "日本語");
    assert_eq!(truncate_chars("abc", 0), "");
}

#[test]
fn correlator_is_cut_at_five_hundred_characters() {
    let exact = "a".repeat(500);
    assert_eq!(normalize_correlator(&exact), exact);
    let longer = "a".repeat(500) + "b";
    assert_eq!(normalize_correlator(&longer), exact);
    assert_eq!(normalize_correlator(&normalize_correlator(&longer)), exact);
    assert_eq!(normalize_correlator("abc123"), "abc123");
}

#[test]
fn prefix_is_stripped_once_and_only_at_the_start() {
    assert_eq!(strip_prefix("data:xyz", "data:"), "xyz");
    assert_eq!(strip_prefix("data:data:xyz", "data:"), "data:xyz");
    assert_eq!(strip_prefix("xdata:yz", "data:"), "xdata:yz");
    assert_eq!(strip_prefix("dat", "data:"), "dat");
    assert_eq!(strip_prefix("data:", "data:"), "");
    assert_eq!(strip_prefix("abc", ""), "abc");
}

#[test]
fn same_text_compares_characters() {
    assert!(same_text("KYC", "KYC"));
    assert!(!same_text("KYC", "KYc"));
    assert!(!same_text("KYC", "KYCC"));
    assert!(same_text("", ""));
    assert!(same_text("naïve", "naïve"));
}

#[test]
fn join_appends() {
    assert_eq!(join("abc", "_KTP"), "abc_KTP");
    assert_eq!(join("", ""), "");
}

#[test]
fn object_names_carry_the_role_suffix() {
    assert_eq!(object_name("id1", DocumentRole::Ktp), "id1_KTP");
    assert_eq!(object_name("id1", DocumentRole::Selfie), "id1_SELFIE");
    assert_eq!(object_name("id1", DocumentRole::Nfc), "id1_NFC");
}

#[test]
fn chars_of_lists_characters() {
    assert_eq!(chars_of("aé日"), vec!['a', 'é', '日']);
    assert!(chars_of("").is_empty());
}

#[test]
fn trim_removes_white_space_at_both_ends() {
    assert_eq!(trim("  Jakarta \t\n"), "Jakarta");
    assert_eq!(trim("Kota Bandung"), "Kota Bandung");
    assert_eq!(trim(" \u{a0}x\u{2003}"), "x");
    assert_eq!(trim("   "), "");
    assert_eq!(trim(""), "");
}

#[test]
fn split_yields_one_piece_more_than_separators() {
    assert_eq!(split("a,b,c", ','), vec!["a", "b", "c"]);
    assert_eq!(split("", ','), vec![""]);
    assert_eq!(split(",", ','), vec!["", ""]);
    assert_eq!(split("a,,b,", ','), vec!["a", "", "b", ""]);
    assert_eq!(split("no separator", ','), vec!["no separator"]);
}

#[test]
fn endpoint_loses_its_trailing_slashes() {
    assert_eq!(normalize_endpoint("http://minio:9000/"), "http://minio:9000");
    assert_eq!(normalize_endpoint("http://minio:9000///"), "http://minio:9000");
    assert_eq!(normalize_endpoint("http://minio:9000"), "http://minio:9000");
    assert_eq!(normalize_endpoint("///"), "");
}
