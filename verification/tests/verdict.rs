use libinjection::engine::verdict::verdict_hint;
use libinjection::policy::{builtin_sqli_detect, builtin_xss_detect};
use libinjection::{AnalysisFlags, ConstructFlags, VerdictHint};

#[test]
fn verdict_prefilter_miss_is_benign() {
    let flags = AnalysisFlags(AnalysisFlags::PREFILTER_MISS);
    let constructs = ConstructFlags(ConstructFlags::SQL_UNION);
    assert_eq!(verdict_hint(constructs, flags, builtin_sqli_detect()), VerdictHint::Benign);
}

#[test]
fn policy_match_is_decisive_without_truncation() {
    let constructs = ConstructFlags(ConstructFlags::SQL_UNION);
    assert_eq!(
        verdict_hint(constructs, AnalysisFlags::empty(), builtin_sqli_detect()),
        VerdictHint::Decisive
    );
}

#[test]
fn policy_match_stays_decisive_when_truncated() {
    let constructs = ConstructFlags(ConstructFlags::SQL_UNION);
    let flags = AnalysisFlags(AnalysisFlags::TRUNCATED);
    assert_eq!(verdict_hint(constructs, flags, builtin_sqli_detect()), VerdictHint::Decisive);
}

#[test]
fn policy_match_stays_decisive_when_token_limit_hit() {
    let constructs = ConstructFlags(ConstructFlags::XSS_TAG_SCRIPT);
    let flags = AnalysisFlags(AnalysisFlags::TOKEN_LIMIT);
    assert_eq!(verdict_hint(constructs, flags, builtin_xss_detect()), VerdictHint::Decisive);
}

#[test]
fn weak_dialect_only_is_inconclusive_when_truncated() {
    let constructs = ConstructFlags(ConstructFlags::SQL_DIALECT_MYSQL);
    let flags = AnalysisFlags(AnalysisFlags::TRUNCATED);
    assert_eq!(verdict_hint(constructs, flags, builtin_sqli_detect()), VerdictHint::Inconclusive);
}

#[test]
fn weak_dialect_only_is_suspicious_when_not_truncated() {
    let constructs = ConstructFlags(ConstructFlags::SQL_DIALECT_MYSQL);
    assert_eq!(
        verdict_hint(constructs, AnalysisFlags::empty(), builtin_sqli_detect()),
        VerdictHint::Suspicious
    );
}

#[test]
fn truncated_without_constructs_is_benign() {
    let flags = AnalysisFlags(AnalysisFlags::TRUNCATED);
    assert_eq!(verdict_hint(ConstructFlags::empty(), flags, builtin_sqli_detect()), VerdictHint::Benign);
}

#[test]
fn non_policy_construct_is_suspicious_when_truncated() {
    let constructs = ConstructFlags(ConstructFlags::SQL_NUMERIC_INJECTION);
    let flags = AnalysisFlags(AnalysisFlags::TRUNCATED);
    assert_eq!(verdict_hint(constructs, flags, builtin_sqli_detect()), VerdictHint::Suspicious);
}

#[test]
fn token_limit_with_weak_dialect_is_inconclusive() {
    let constructs = ConstructFlags(ConstructFlags::SQL_DIALECT_ORACLE);
    let flags = AnalysisFlags(AnalysisFlags::TOKEN_LIMIT);
    assert_eq!(verdict_hint(constructs, flags, builtin_sqli_detect()), VerdictHint::Inconclusive);
}
