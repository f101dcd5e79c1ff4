use libinjection::xss::legacy::deny::{is_deny_url, next_html_byte};

#[test]
fn semicolonless_numeric_entities_decode_and_leave_terminator() {
    let mut pos = 0;
    assert_eq!(next_html_byte(b"&#106avascript", &mut pos), Some(b'j'));
    assert_eq!(pos, 5);
    assert_eq!(next_html_byte(b"&#106avascript", &mut pos), Some(b'a'));

    assert!(is_deny_url(b"&#106avascript:"));
    let mut pos = 0;
    assert_eq!(next_html_byte(b"&#x6Avascript", &mut pos), Some(b'j'));
    assert_eq!(pos, 5);
}

#[test]
fn oversized_numeric_entities_are_rejected() {
    let mut pos = 0;
    assert_eq!(next_html_byte(b"&#256;", &mut pos), None);

    let mut pos = 0;
    assert_eq!(next_html_byte(b"&#x100100;", &mut pos), None);
}

#[test]
fn rejected_entity_moves_cursor_past_it() {
    let mut pos = 0;
    assert_eq!(next_html_byte(b"&#256;x", &mut pos), None);
    assert_eq!(pos, 6);

    let mut pos = 0;
    assert_eq!(next_html_byte(b"&#;x", &mut pos), None);
    assert_eq!(pos, 0);

    let mut pos = 0;
    assert_eq!(next_html_byte(b"&#65;", &mut pos), Some(b'A'));
    assert_eq!(pos, 5);
}
