use openseal::json_text::standardize_result;
use openseal::runtime::{
    bytes_equal, check_integrity, expected_root_bytes, identity_summary, target_uri,
    wax_from_header, IntegrityStatus, IntegrityViolation, RootDeclaration, WaxError,
};

#[test]
fn json_body_is_reserialized_compactly() {
    assert_eq!(standardize_result(b" { \"b\" : [1, 2], \"a\": null } "), r#"{"a":null,"b":[1,2]}"#);
    assert_eq!(standardize_result(b"42"), "42");
}

#[test]
fn text_body_becomes_json_string() {
    assert_eq!(standardize_result(b"hello"), "\"hello\"");
    assert_eq!(standardize_result(b"a\"b\\c\n\t\x01"), "\"a\\\"b\\\\c\\n\\t\\u0001\"");
    assert_eq!(standardize_result(b""), "\"\"");
}

#[test]
fn invalid_utf8_body_is_decoded_lossily() {
    assert_eq!(standardize_result(&[0x61, 0xff]), "\"a\u{fffd}\"");
}

#[test]
fn integrity_matches() {
    let live = [3u8; 32];
    let declared = RootDeclaration::Entries(vec![Some(3); 32]);
    assert_eq!(check_integrity(&live, &declared), Ok(IntegrityStatus::Verified));
}

#[test]
fn integrity_refuses_entries_out_of_byte_range() {
    let live = [3u8; 32];
    let mut values: Vec<Option<u64>> = vec![Some(3); 32];
    values[7] = Some(259);
    assert_eq!(expected_root_bytes(&values), None);
    assert_eq!(
        check_integrity(&live, &RootDeclaration::Entries(values)),
        Err(IntegrityViolation { expected_hex: None, actual_hex: "03".repeat(32) })
    );
}

#[test]
fn integrity_refuses_non_integer_entries() {
    let mut values: Vec<Option<u64>> = vec![Some(3); 32];
    values.insert(5, None);
    assert_eq!(expected_root_bytes(&values), None);
    assert!(check_integrity(&[3u8; 32], &RootDeclaration::Entries(values)).is_err());
}

#[test]
fn integrity_refuses_non_list_declaration() {
    assert_eq!(
        check_integrity(&[0u8; 32], &RootDeclaration::Other),
        Err(IntegrityViolation { expected_hex: None, actual_hex: "00".repeat(32) })
    );
}

#[test]
fn integrity_violation_reports_both_hashes() {
    let live = [0xabu8; 32];
    let declared = RootDeclaration::Entries(vec![Some(1), Some(2)]);
    assert_eq!(expected_root_bytes(&vec![Some(1), Some(2)]), Some(vec![1u8, 2]));
    assert_eq!(
        check_integrity(&live, &declared),
        Err(IntegrityViolation {
            expected_hex: Some("0102".to_string()),
            actual_hex: "ab".repeat(32)
        })
    );
}

#[test]
fn integrity_without_declaration() {
    assert_eq!(
        check_integrity(&[0u8; 32], &RootDeclaration::Absent),
        Ok(IntegrityStatus::NotDeclared)
    );
}

#[test]
fn bytes_equal_compares_contents() {
    assert!(bytes_equal(b"abc", b"abc"));
    assert!(!bytes_equal(b"abc", b"abd"));
    assert!(!bytes_equal(b"ab", b"abc"));
}

#[test]
fn wax_header_rules() {
    assert_eq!(wax_from_header(None), Err(WaxError::Missing));
    assert_eq!(wax_from_header(Some(None)), Err(WaxError::NotText));
    assert_eq!(wax_from_header(Some(Some("abc".to_string()))), Ok("abc".to_string()));
    assert_eq!(wax_from_header(Some(Some(String::new()))), Ok(String::new()));
}

#[test]
fn forwarded_uri() {
    assert_eq!(
        target_uri("http://127.0.0.1:3000", "/api/v1/price", Some("s=BTC")),
        "http://127.0.0.1:3000/api/v1/price?s=BTC"
    );
    assert_eq!(target_uri("http://h", "/p", None), "http://h/p");
    assert_eq!(target_uri("http://h", "/p", Some("")), "http://h/p?");
}

#[test]
fn identity_endpoint_reports_root_hex() {
    let s = identity_summary(&[0x0fu8; 32], 0);
    assert_eq!(s.a_hash, "0f".repeat(32));
    assert_eq!(s.file_count, 0);
}
