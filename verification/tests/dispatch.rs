use scired::dispatch::{
    invalid_value_failure, normalize_get_result, normalize_set_result, select_template,
    upsert_template, Outcome,
};
use scired::text::is_valid_utf8;

#[test]
fn read_row_normalizes_to_value() {
    let o = normalize_get_result(Ok(Some(b"42".to_vec())));
    assert_eq!(o, Outcome::Value(b"42".to_vec()));
}

#[test]
fn read_empty_result_normalizes_to_absent() {
    let o = normalize_get_result(Ok(None));
    assert_eq!(o, Outcome::Absent);
}

#[test]
fn read_error_normalizes_to_failure() {
    let o = normalize_get_result(Err("no reachable node".to_string()));
    assert_eq!(o, Outcome::Failure("no reachable node".to_string()));
}

#[test]
fn write_success_normalizes_to_acknowledged() {
    let o = normalize_set_result(Ok(()));
    assert_eq!(o, Outcome::Acknowledged);
}

#[test]
fn write_error_normalizes_to_failure() {
    let o = normalize_set_result(Err("timed out".to_string()));
    assert_eq!(o, Outcome::Failure("timed out".to_string()));
}

#[test]
fn invalid_value_failure_carries_its_message() {
    let o = invalid_value_failure();
    assert_eq!(o, Outcome::Failure("value is not valid utf-8".to_string()));
}

#[test]
fn templates_are_the_declared_statements() {
    assert_eq!(
        select_template(),
        "select value from scired.strings where key=?".to_string()
    );
    assert_eq!(
        upsert_template(),
        "insert into scired.strings (key, value) values (?, ?)".to_string()
    );
}

#[test]
fn utf8_accepts_well_formed_sequences() {
    assert!(is_valid_utf8(b""));
    assert!(is_valid_utf8(b"plain ascii"));
    assert!(is_valid_utf8("caf\u{e9}".as_bytes()));
    assert!(is_valid_utf8("\u{20ac}".as_bytes()));
    assert!(is_valid_utf8("\u{1f600}".as_bytes()));
    assert!(is_valid_utf8("\u{0}".as_bytes()));
}

#[test]
fn utf8_rejects_malformed_sequences() {
    assert!(!is_valid_utf8(&[0xff]));
    assert!(!is_valid_utf8(&[0x80]));
    assert!(!is_valid_utf8(&[0xc0, 0x80]));
    assert!(!is_valid_utf8(&[0xc2]));
    assert!(!is_valid_utf8(&[0xe2, 0x82]));
    assert!(!is_valid_utf8(&[0xed, 0xa0, 0x80]));
    assert!(!is_valid_utf8(&[0xf4, 0x90, 0x80, 0x80]));
    assert!(!is_valid_utf8(&[0xf0, 0x80, 0x80, 0x80]));
}

#[test]
fn utf8_agrees_with_std() {
    let cases: Vec<Vec<u8>> = vec![
        b"".to_vec(),
        b"key".to_vec(),
        vec![0xc3, 0xa9],
        vec![0xe0, 0x9f, 0x80],
        vec![0xe0, 0xa0, 0x80],
        vec![0xed, 0x9f, 0xbf],
        vec![0xed, 0xa0, 0x80],
        vec![0xf0, 0x8f, 0xbf, 0xbf],
        vec![0xf0, 0x90, 0x80, 0x80],
        vec![0xf4, 0x8f, 0xbf, 0xbf],
        vec![0xf4, 0x90, 0x80, 0x80],
        vec![0x7f, 0xc2, 0x80],
        vec![0xfe],
        vec![0xc2, 0xc2],
    ];
    for bytes in cases {
        assert_eq!(
            is_valid_utf8(&bytes),
            std::str::from_utf8(&bytes).is_ok(),
            "disagreement on {:?}",
            bytes
        );
    }
}
