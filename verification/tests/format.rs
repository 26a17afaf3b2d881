//! The canonical UUID parser against the uuid crate and the format's
//! edge cases.

use gtk_extras::uuid_format::parse_uuid;

fn chars(s: &str) -> Vec<char> {
    s.chars().collect()
}

fn parse_bytes(s: &str) -> Option<Vec<u8>> {
    parse_uuid(&chars(s)).map(|v| v.to_bytes())
}

#[test]
fn parses_lowercase_canonical() {
    let s = "550e8400-e29b-41d4-a716-446655440000";
    let got = parse_bytes(s).expect("canonical string must parse");
    let expected = *uuid::Uuid::parse_str(s).unwrap().as_bytes();
    assert_eq!(got, expected.to_vec());
}

#[test]
fn parses_uppercase_canonical() {
    let lower = "550e8400-e29b-41d4-a716-446655440000";
    let upper = "550E8400-E29B-41D4-A716-446655440000";
    assert_eq!(parse_bytes(upper).unwrap(), parse_bytes(lower).unwrap());
}

#[test]
fn parses_mixed_case_canonical() {
    let s = "6BA7b810-9dAD-11d1-80B4-00c04fd430C8";
    let got = parse_bytes(s).expect("case must not matter");
    let expected = *uuid::Uuid::parse_str(s).unwrap().as_bytes();
    assert_eq!(got, expected.to_vec());
}

#[test]
fn exact_bytes_of_known_identifier() {
    let got = parse_bytes("00112233-4455-6677-8899-aabbccddeeff").unwrap();
    assert_eq!(
        got,
        vec![
            0x00, 0x11, 0x22, 0x33, 0x44, 0x55, 0x66, 0x77, 0x88, 0x99, 0xaa, 0xbb, 0xcc, 0xdd,
            0xee, 0xff
        ]
    );
}

#[test]
fn all_zero_and_all_f() {
    assert_eq!(parse_bytes("00000000-0000-0000-0000-000000000000").unwrap(), vec![0u8; 16]);
    assert_eq!(parse_bytes("ffffffff-ffff-ffff-ffff-ffffffffffff").unwrap(), vec![0xffu8; 16]);
}

#[test]
fn rejects_empty_and_short() {
    assert!(parse_bytes("").is_none());
    assert!(parse_bytes("550e8400-e29b-41d4-a716-44665544000").is_none());
    assert!(parse_bytes("550e8400-e29b-41d4-a716-4466554400000").is_none());
}

#[test]
fn rejects_surrounding_whitespace() {
    // Same length as a canonical string, but shifted by a space.
    assert!(parse_bytes(" 550e8400-e29b-41d4-a716-44665544000").is_none());
    assert!(parse_bytes("550e8400-e29b-41d4-a716-44665544000 ").is_none());
}

#[test]
fn rejects_misplaced_hyphens() {
    assert!(parse_bytes("550e84-00e29b-41d4-a716-446655440000").is_none());
    assert!(parse_bytes("550e8400e29b-41d4-a716-4466554400000-").is_none());
}

#[test]
fn rejects_non_hex_characters() {
    assert!(parse_bytes("550e8400-e29b-41d4-a716-44665544000g").is_none());
    assert!(parse_bytes("zzze8400-e29b-41d4-a716-446655440000").is_none());
}

#[test]
fn rejects_unhyphenated_form() {
    // The uuid crate accepts the plain 32-digit form; the canonical
    // wire format here is strictly hyphenated, so the field does not.
    let simple = "550e8400e29b41d4a716446655440000";
    assert!(uuid::Uuid::parse_str(simple).is_ok());
    assert!(parse_bytes(simple).is_none());
}

#[test]
fn value_accessors_agree() {
    let v = parse_uuid(&chars("00112233-4455-6677-8899-aabbccddeeff")).unwrap();
    assert_eq!(v.len(), 16);
    assert_eq!(v.byte_at(0), 0x00);
    assert_eq!(v.byte_at(9), 0x99);
    assert_eq!(v.byte_at(15), 0xff);
}
