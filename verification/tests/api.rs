use libinjection::{
    analyze_sqli, analyze_xss, detect_sqli, detect_sqli_with, detect_xss, detect_xss_with, AnalysisFlags,
    AnalyzeOptions, VerdictHint, DEFAULT_MAX_INPUT_LEN,
};

#[test]
fn empty_input_is_benign() {
    let sqli = detect_sqli(b"");
    assert!(!sqli.detected);
    assert_eq!(sqli.snapshot.verdict_hint, VerdictHint::Benign);

    let xss = detect_xss(b"");
    assert!(!xss.detected);
    assert_eq!(xss.snapshot.verdict_hint, VerdictHint::Benign);
}

#[test]
fn detect_sqli_detects_classic_injection() {
    assert!(detect_sqli(b"1' OR '1'='1").detected);
}

#[test]
fn detect_xss_flags_deny_script() {
    assert!(detect_xss(b"<script>alert(1)</script>").detected);
}

#[test]
fn analyze_sqli_populates_constructs() {
    let snap = analyze_sqli(b"1' UNION SELECT null--");
    assert!(snap.constructs.any_sqli());
    assert!(!snap.flags.contains(AnalysisFlags::PREFILTER_MISS));
}

#[test]
fn analyze_xss_populates_constructs() {
    let snap = analyze_xss(b"<script>alert(1)</script>");
    assert!(snap.constructs.any_xss());
}

#[test]
fn analyze_returns_copy_snapshot() {
    let a = analyze_sqli(b"hello");
    let b = a;
    assert_eq!(a, b);
    assert!(!a.constructs.any_sqli());
}

#[test]
fn analyze_options_default_matches_limit() {
    let opts = AnalyzeOptions::default();
    assert_eq!(opts.max_input_len, DEFAULT_MAX_INPUT_LEN);
    assert_eq!(opts.effective_max_input_len(), DEFAULT_MAX_INPUT_LEN);
}

#[test]
fn detect_sqli_respects_scan_budget() {
    let long = [b'a'; DEFAULT_MAX_INPUT_LEN + 100];
    let opts = AnalyzeOptions::default();
    let verdict = detect_sqli_with(&long, opts);
    assert!(verdict.snapshot.flags.contains(AnalysisFlags::TRUNCATED));
}

#[test]
fn detect_xss_respects_scan_budget() {
    let long = [b'a'; DEFAULT_MAX_INPUT_LEN + 100];
    let opts = AnalyzeOptions::default();
    let verdict = detect_xss_with(&long, opts);
    assert!(verdict.snapshot.flags.contains(AnalysisFlags::TRUNCATED));
}

#[test]
fn detect_reports_the_analysis_snapshot() {
    for input in [&b"<img src=x onerror=alert(1)>"[..], b"hello world", b"javascript:alert(1)"] {
        assert_eq!(detect_xss(input).snapshot, analyze_xss(input));
    }

    let plain = b"select name from users";
    let v = detect_sqli(plain);
    assert_eq!(v.snapshot.legacy_fingerprint.len, 0);
    assert_eq!(v.snapshot, analyze_sqli(plain));

    let attack = b"1' OR '1'='1";
    let v = detect_sqli(attack);
    let a = analyze_sqli(attack);
    assert!(v.snapshot.legacy_fingerprint.len > 0);
    assert_eq!(v.snapshot.constructs, a.constructs);
    assert_eq!(v.snapshot.evidence, a.evidence);
    assert_eq!(v.snapshot.flags.0, a.flags.0 | AnalysisFlags::LEGACY_FP_AVAILABLE);
    assert_eq!(v.snapshot.legacy_fingerprint.as_str(), Some("s&sos"));
}
