use libinjection::sqli::legacy::detect_with_fingerprint;

fn assert_fingerprint(input: &[u8], expected: &[u8]) {
    let (detected, fp, len) = detect_with_fingerprint(input);
    assert!(detected, "expected SQLi for input={input:?}");
    let end = usize::from(len);
    assert_eq!(fp.get(..end), Some(expected), "input={input:?}");
}

#[test]
fn is_sqli_benign_inputs() {
    let (detected, _, len) = detect_with_fingerprint(b"");
    assert!(!detected);
    assert_eq!(len, 0);

    for input in [b"hello".as_slice(), b"foo 'bar'", b"foo 'bar' \"zap\""] {
        let (detected, _, len) = detect_with_fingerprint(input);
        assert!(!detected, "benign input should not detect: {input:?}");
        assert_eq!(len, 0);
    }
}

#[test]
fn is_sqli_detects_classic_patterns() {
    assert_fingerprint(b"1 = 1 OR 1", b"1&1");
    assert_fingerprint(b"1\" UNION ALL SELECT * FROM FOO", b"sUEok");
    assert_fingerprint(b"1' or 1.e(1)", b"s&(1)");
    assert_fingerprint(b"1' OR '1'='1", b"s&sos");
}

#[test]
fn detect_union_select_fingerprint() {
    assert_fingerprint(b"1 UNION SELECT 1", b"1UE1");
}

#[test]
fn fingerprint_bytes_after_the_fingerprint_are_zero() {
    let (detected, fp, len) = detect_with_fingerprint(b"1 UNION SELECT 1");
    assert!(detected);
    assert_eq!(len, 4);
    assert_eq!(fp, [b'1', b'U', b'E', b'1', 0]);

    let (detected, fp, len) = detect_with_fingerprint(b"1 = 1 OR 1");
    assert!(detected);
    assert_eq!(len, 3);
    assert_eq!(fp, [b'1', b'&', b'1', 0, 0]);
}
