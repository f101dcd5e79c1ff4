use libinjection::xss::modern::analyze;
use libinjection::{detect_xss, AnalyzeOptions, ConstructFlags, VerdictHint};

fn detect_xss_for_test(input: &[u8]) -> bool {
    detect_xss(input).detected
}

#[test]
fn script_tag_sets_construct() {
    let snap = analyze(b"<script>alert(1)</script>", AnalyzeOptions::default());
    assert!(snap.constructs.intersects(ConstructFlags(ConstructFlags::XSS_TAG_SCRIPT)));
    assert_eq!(snap.verdict_hint, VerdictHint::Decisive);
}

#[test]
fn javascript_url_detected() {
    let snap = analyze(b"javascript:alert(1)", AnalyzeOptions::default());
    assert!(snap.constructs.intersects(ConstructFlags(ConstructFlags::XSS_URL_JAVASCRIPT)));
}

#[test]
fn hardening_cases_respect_html_context_and_boundaries() {
    struct Case {
        input: &'static [u8],
        flag: u32,
        detected: bool,
    }

    let cases = [
        Case { input: b"<script>alert(1)</script>", flag: ConstructFlags::XSS_TAG_SCRIPT, detected: true },
        Case { input: b"<scripted>text</scripted>", flag: 0, detected: false },
        Case { input: b"<img onerror=alert(1)>", flag: ConstructFlags::XSS_EVENT_HANDLER, detected: true },
        Case { input: b"href=javascript:alert(1)", flag: ConstructFlags::XSS_URL_JAVASCRIPT, detected: true },
        Case { input: b"xjavascript:alert(1)", flag: 0, detected: false },
        Case {
            input: b"<div style=expression(alert(1))>",
            flag: ConstructFlags::XSS_STYLE_EXPRESSION,
            detected: true,
        },
        Case { input: b"<!DOCTYPE html>", flag: ConstructFlags::XSS_DOCTYPE, detected: true },
        Case { input: b"<!-- comment -->", flag: ConstructFlags::XSS_COMMENT_BYPASS, detected: true },
        Case { input: b"doctype is ordinary text", flag: 0, detected: false },
        Case { input: b"<embed src=x>", flag: ConstructFlags::XSS_HTML_DENYLIST, detected: true },
        Case { input: b"<img onanimationstart=alert(1)>", flag: ConstructFlags::XSS_HTML_DENYLIST, detected: true },
        Case { input: b"<div style=color:red>", flag: ConstructFlags::XSS_HTML_DENYLIST, detected: true },
        Case { input: b"<a href=vbscript:alert(1)>", flag: ConstructFlags::XSS_HTML_DENYLIST, detected: true },
    ];

    for case in cases {
        let snap = analyze(case.input, AnalyzeOptions::default());
        assert_eq!(snap.constructs.0 & case.flag, case.flag, "input={:?}", case.input);
        assert_eq!(detect_xss_for_test(case.input), case.detected, "input={:?}", case.input);
    }
}

#[test]
fn normalized_tag_evidence_maps_to_original_bytes() {
    let input = b"%3Cscript%3E";
    let snap = analyze(input, AnalyzeOptions::default());
    assert!(snap.constructs.intersects(ConstructFlags(ConstructFlags::XSS_TAG_SCRIPT)));
    let span = snap.evidence.spans[0];
    let start = usize::from(span.offset);
    let end = start + usize::from(span.len);
    assert!(end <= input.len());
    assert_eq!(input.get(start..end), Some(&b"%3Cscript"[..]));
}
