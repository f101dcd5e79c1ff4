use libinjection::sqli::modern::analyze;
use libinjection::{detect_sqli, AnalysisFlags, AnalyzeOptions, ConstructFlags, VerdictHint};

fn detect_sqli_for_test(input: &[u8]) -> bool {
    detect_sqli(input).detected
}

#[test]
fn mod_prefilter_miss_is_benign() {
    let snap = analyze(b"hello", AnalyzeOptions::default());
    assert!(snap.flags.contains(AnalysisFlags::PREFILTER_MISS));
    assert_eq!(snap.verdict_hint, VerdictHint::Benign);
}

#[test]
fn union_injection_sets_construct() {
    let snap = analyze(b"1' UNION SELECT null--", AnalyzeOptions::default());
    assert!(snap.constructs.intersects(ConstructFlags(ConstructFlags::SQL_UNION)));
    assert!(snap.constructs.any_sqli());
}

#[test]
fn classic_tautology_detected() {
    let snap = analyze(b"1' OR '1'='1", AnalyzeOptions::default());
    assert!(snap
        .constructs
        .intersects(ConstructFlags(ConstructFlags::SQL_TAUTOLOGY | ConstructFlags::SQL_STRING_BREAK)));
}

#[test]
fn hardening_cases_keep_lexical_and_dialect_boundaries() {
    struct Case {
        input: &'static [u8],
        flag: u32,
        detected: bool,
    }

    let cases = [
        Case {
            input: b"1/*!50000UNION*/SELECT",
            flag: ConstructFlags::SQL_COMMENT_INJECTION | ConstructFlags::SQL_DIALECT_MYSQL,
            detected: true,
        },
        Case { input: b"foo--bar", flag: 0, detected: false },
        Case { input: b"1; DROP TABLE users", flag: ConstructFlags::SQL_STACKED_QUERY, detected: true },
        Case { input: b"1; hello", flag: 0, detected: false },
        Case { input: b"[user]", flag: ConstructFlags::SQL_DIALECT_MSSQL, detected: false },
        Case { input: b"EXEC foo", flag: ConstructFlags::SQL_DIALECT_MSSQL, detected: false },
        Case { input: b"DUAL", flag: ConstructFlags::SQL_DIALECT_ORACLE, detected: false },
        Case { input: b"q'[value]'", flag: ConstructFlags::SQL_DIALECT_ORACLE, detected: false },
        Case { input: b"duality", flag: 0, detected: false },
    ];

    for case in cases {
        let snap = analyze(case.input, AnalyzeOptions::default());
        assert_eq!(snap.constructs.0 & case.flag, case.flag, "input={:?}", case.input);
        assert_eq!(detect_sqli_for_test(case.input), case.detected, "input={:?}", case.input);
    }
}

#[test]
fn versioned_comment_evidence_stays_in_original_input() {
    let input = b"1/*!50000UNION*/SELECT";
    let snap = analyze(input, AnalyzeOptions::default());
    let span = snap.evidence.spans[0];
    let start = usize::from(span.offset);
    let end = start + usize::from(span.len);
    assert!(end <= input.len());
    assert_eq!(input.get(start..end), Some(&b"/*"[..]));
}
