use libinjection::engine::token::{tokenize, TokenKind};
use libinjection::engine::normalize::{decode_percent, hex_nibble, normalize, original_span_for_normalized};
use libinjection::engine::prefilter::{sqli_may_be_interesting, xss_may_be_interesting};
use libinjection::sqli::legacy::detect::contains_sp_password;
use libinjection::xss::legacy::deny::{is_deny_attr, is_deny_comment, is_deny_tag};
use libinjection::xss::legacy::deny_list::DenyAttrKind;
use libinjection::{
    analyze_sqli, analyze_sqli_with, analyze_xss, analyze_xss_with, clamp_max_input_len, detect_sqli, detect_xss,
    html5_visit, scan_prefix, AnalysisFlags, AnalyzeOptions, ConstructFlags, Html5TokenKind, LegacyFingerprint,
    SqlDialect, SqliQuoteMode, VerdictHint, XssHtmlContext, ABSOLUTE_MAX_INPUT_LEN,
};

#[test]
fn sqli_analysis_sets_only_sqli_bits() {
    for input in [&b"1' UNION SELECT 1 <script>alert(1)</script>"[..], b"<img onerror=x> OR 1=1", b"`a` #"] {
        let snap = analyze_sqli(input);
        assert!(!snap.constructs.any_xss(), "input={input:?}");
    }
}

#[test]
fn xss_analysis_sets_only_xss_bits() {
    for input in [&b"<script>1' UNION SELECT 1--</script>"[..], b"' OR '1'='1", b"javascript:alert(1); DROP"] {
        let snap = analyze_xss(input);
        assert!(!snap.constructs.any_sqli(), "input={input:?}");
    }
}

#[test]
fn decisive_hint_is_detected() {
    let v = detect_sqli(b"1' UNION SELECT null--");
    assert_eq!(v.snapshot.verdict_hint, VerdictHint::Decisive);
    assert!(v.detected);
    let v = detect_xss(b"<script>alert(1)</script>");
    assert_eq!(v.snapshot.verdict_hint, VerdictHint::Decisive);
    assert!(v.detected);
}

#[test]
fn over_budget_input_is_truncated() {
    let input = b"hello world, this is longer than ten bytes";
    let opts = AnalyzeOptions::with_max_input_len(10);
    assert!(analyze_sqli_with(input, opts).flags.contains(AnalysisFlags::TRUNCATED));
    assert!(analyze_xss_with(input, opts).flags.contains(AnalysisFlags::TRUNCATED));
    let short = AnalyzeOptions::with_max_input_len(1000);
    assert!(!analyze_sqli_with(input, short).flags.contains(AnalysisFlags::TRUNCATED));
}

#[test]
fn only_the_scanned_prefix_is_analyzed() {
    let input = b"aaaaaaaaaa' UNION SELECT 1";
    let opts = AnalyzeOptions::with_max_input_len(10);
    let snap = analyze_sqli_with(input, opts);
    assert_eq!(snap.constructs.0, 0);
    assert!(snap.flags.contains(AnalysisFlags::TRUNCATED));
}

#[test]
fn legacy_flag_marks_fingerprint() {
    let hit = detect_sqli(b"1' OR '1'='1");
    assert!(hit.snapshot.legacy_fingerprint.len > 0);
    assert!(hit.snapshot.flags.contains(AnalysisFlags::LEGACY_FP_AVAILABLE));
    assert_eq!(hit.snapshot.legacy_fingerprint.as_str(), Some("s&sos"));

    let miss = detect_sqli(b"hello");
    assert_eq!(miss.snapshot.legacy_fingerprint.len, 0);
    assert!(!miss.snapshot.flags.contains(AnalysisFlags::LEGACY_FP_AVAILABLE));
    assert_eq!(miss.snapshot.legacy_fingerprint.as_str(), None);
}

#[test]
fn empty_analysis_is_benign() {
    for snap in [analyze_sqli(b""), analyze_xss(b"")] {
        assert_eq!(snap.constructs.0, 0);
        assert_eq!(snap.flags.0, 0);
        assert_eq!(snap.verdict_hint, VerdictHint::Benign);
        assert_eq!(snap.evidence.count, 0);
    }
}

#[test]
fn readme_examples() {
    let snap = analyze_sqli(b"1' UNION SELECT null--");
    assert!(snap.constructs.intersects(ConstructFlags(ConstructFlags::SQL_UNION)));
    assert_eq!(snap.verdict_hint, VerdictHint::Decisive);
    let xss = analyze_xss(b"<img src=x onerror=alert(1)>");
    assert!(xss.constructs.any_xss());
}

#[test]
fn scan_budget_is_clamped() {
    assert_eq!(clamp_max_input_len(usize::MAX), ABSOLUTE_MAX_INPUT_LEN);
    assert_eq!(clamp_max_input_len(100), 100);
    assert_eq!(AnalyzeOptions::with_max_input_len(1 << 20).effective_max_input_len(), ABSOLUTE_MAX_INPUT_LEN);
    let (prefix, truncated) = scan_prefix(b"abcdef", 3);
    assert_eq!(prefix, b"abc");
    assert!(truncated);
    let (whole, truncated) = scan_prefix(b"abc", 3);
    assert_eq!(whole, b"abc");
    assert!(!truncated);
}

#[test]
fn every_evidence_span_is_inside_the_input() {
    for input in [
        &b"1' UNION SELECT null-- ; DROP TABLE x"[..],
        b"%3Cscript%3Ealert(1)",
        b"1 and 1=1 or 2=2 union select 1 from x",
    ] {
        for snap in [analyze_sqli(input), analyze_xss(input)] {
            for i in 0..usize::from(snap.evidence.count) {
                let span = snap.evidence.spans[i];
                assert!(usize::from(span.offset) + usize::from(span.len) <= input.len(), "input={input:?}");
            }
        }
    }
}

#[test]
fn context_and_dialect_hints() {
    let snap = analyze_sqli(b"SELECT * FROM dual");
    assert_eq!(snap.context.dialect, SqlDialect::Oracle);
    assert_eq!(snap.context.sqli_quote_mode, SqliQuoteMode::Unquoted);
    let snap = analyze_sqli(b"`b` = 'a'");
    assert_eq!(snap.context.sqli_quote_mode, SqliQuoteMode::Single);
    assert_eq!(snap.context.dialect, SqlDialect::Mysql);
    let snap = analyze_xss(b"\"><script>");
    assert_eq!(snap.context.xss_html_context, XssHtmlContext::AttrDouble);
    let snap = analyze_xss(b"a=b");
    assert_eq!(snap.context.xss_html_context, XssHtmlContext::AttrUnquoted);
}

#[test]
fn normalization_decodes_one_percent_layer_and_lowercases() {
    let norm = normalize(b"%3CScRiPt%3E\0x%41");
    assert_eq!(norm.bytes(), b"<script>xa");
    assert!(!norm.norm_truncated);
    let norm = normalize(b"%253C");
    assert_eq!(norm.bytes(), b"%3c");
    let long = [b'a'; 600];
    let norm = normalize(&long);
    assert_eq!(norm.bytes().len(), 512);
    assert!(norm.norm_truncated);
    assert_eq!(hex_nibble(b'f'), Some(15));
    assert_eq!(hex_nibble(b'G'), None);
    assert_eq!(decode_percent(b"%4a", 0), Some((0x4a, 3)));
    assert_eq!(decode_percent(b"%4", 0), None);
    assert_eq!(original_span_for_normalized(b"%3Cscript", 0, 7), Some((0, 9)));
    assert_eq!(original_span_for_normalized(b"abc", 2, 2), None);
}

#[test]
fn prefilters_and_byte_searches() {
    assert!(sqli_may_be_interesting(b"it's"));
    assert!(sqli_may_be_interesting(b"UnIoN"));
    assert!(!sqli_may_be_interesting(b"hello world"));
    assert!(xss_may_be_interesting(b"a<b"));
    assert!(!xss_may_be_interesting(b"hello world"));
    assert!(contains_sp_password(b"x; exec sp_password"));
    assert!(!contains_sp_password(b"sp_passwor"));
    assert!(!contains_sp_password(b"SP_PASSWORD"));
}

#[test]
fn legacy_fingerprint_utf8_view() {
    let fp = LegacyFingerprint { bytes: [0xff, 0, 0, 0, 0, 0, 0, 0], len: 1 };
    assert_eq!(fp.as_str(), None);
    let fp = LegacyFingerprint { bytes: *b"1UE1\0\0\0\0", len: 4 };
    assert_eq!(fp.as_str(), Some("1UE1"));
    let fp = LegacyFingerprint { bytes: *b"1UE1\0\0\0\0", len: 9 };
    assert_eq!(fp.as_str(), None);
}

#[test]
fn deny_list_checks() {
    assert!(is_deny_tag(b"sCrIpT"));
    assert!(is_deny_tag(b"svg:rect"));
    assert!(is_deny_tag(b"s\0cript"));
    assert!(!is_deny_tag(b"scripted"));
    assert_eq!(is_deny_attr(b"onclick"), DenyAttrKind::Deny);
    assert_eq!(is_deny_attr(b"xmlns:x"), DenyAttrKind::Deny);
    assert_eq!(is_deny_attr(b"HREF"), DenyAttrKind::Url);
    assert_eq!(is_deny_attr(b"style"), DenyAttrKind::Style);
    assert_eq!(is_deny_attr(b"attributeName"), DenyAttrKind::Indirect);
    assert_eq!(is_deny_attr(b"onfoo"), DenyAttrKind::NotListed);
    assert_eq!(is_deny_attr(b"title"), DenyAttrKind::NotListed);
    assert!(is_deny_comment(b"import foo"));
    assert!(is_deny_comment(b"[if IE]"));
    assert!(!is_deny_comment(b"[if"));
    assert!(!is_deny_comment(b"plain text"));
}

#[test]
fn html5_visit_walks_tokens_in_order() {
    let input = b"<a href='x'>t</a>";
    let mut seen: Vec<(Html5TokenKind, Vec<u8>)> = Vec::new();
    html5_visit(input, XssHtmlContext::Data, |kind, value| seen.push((kind, value.to_vec())));
    assert_eq!(
        seen,
        vec![
            (Html5TokenKind::TagNameOpen, b"a".to_vec()),
            (Html5TokenKind::AttrName, b"href".to_vec()),
            (Html5TokenKind::AttrValue, b"x".to_vec()),
            (Html5TokenKind::TagNameClose, b">".to_vec()),
            (Html5TokenKind::DataText, b"t".to_vec()),
            (Html5TokenKind::TagClose, b"a".to_vec()),
        ]
    );
}

#[test]
fn close_tag_without_name_stops_the_walk() {
    let mut seen = 0;
    html5_visit(b"a</>b", XssHtmlContext::Data, |_, _| seen += 1);
    assert_eq!(seen, 1);
}

#[test]
fn tokens_lie_within_the_input() {
    let toks = tokenize(b"1 or 'a'");
    assert_eq!(toks.count, 3);
    for t in &toks.slots[..usize::from(toks.count)] {
        assert!(usize::from(t.offset) + usize::from(t.len) <= 8);
    }
    assert_eq!(toks.slots[2].kind, TokenKind::StringSingle);
    assert_eq!((toks.slots[2].offset, toks.slots[2].len), (5, 3));

    let cut = tokenize(b"'\\");
    assert_eq!(cut.count, 1);
    assert_eq!(cut.slots[0].kind, TokenKind::StringSingle);
    assert_eq!((cut.slots[0].offset, cut.slots[0].len), (0, 2));
}

#[test]
fn normalization_lowers_and_stays_within_its_buffer() {
    let n = normalize(b"SELECT %41");
    assert_eq!(&n.buf[..n.len], b"select a");
    assert!(!n.norm_truncated);

    let long = [b'A'; 600];
    let n = normalize(&long);
    assert!(n.norm_truncated);
    assert_eq!(n.len, 512);
    assert!(n.buf[..n.len].iter().all(|b| *b == b'a'));

    let fits = [b'B'; 512];
    assert!(!normalize(&fits).norm_truncated);
}
