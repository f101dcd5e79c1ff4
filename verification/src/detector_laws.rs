//! What the construct detectors and the legacy rules report for the inputs
//! they are meant to catch.
use vstd::prelude::*;
use crate::engine::ascii::{
    contains_ic, eq_ic, matches_ic_at, spec_word_boundary_after, spec_word_boundary_before,
};
use crate::engine::normalize::{spec_hex_nibble, spec_normalize};
use crate::engine::prefilter::{spec_sqli_may_be_interesting, spec_xss_may_be_interesting};
use crate::engine::token::{spec_tokens_from, stored_of};
use crate::options::AnalyzeOptions;
use crate::policy::{sqli_detect_mask, xss_detect_mask};
use crate::snapshot::{construct_bit, AnalysisSnapshot, ConstructFlags, DetectionVerdict};
use crate::sqli::legacy::consts::{TT_KEYWORD, TT_LOGIC_OPERATOR, TT_OPERATOR};
use crate::sqli::legacy::detect::whitelist_confirms;
use crate::sqli::legacy::token::SqliToken;
use crate::sqli::modern::classify::{
    has_boolean_blind, has_comment_injection, has_function, has_keyword_chain, has_stacked, has_string_break,
    has_tautology, has_versioned_comment, has_word, spec_dialect_hits, word_at,
};
use crate::sqli::modern::sqli_snapshot_of;
use crate::xss::legacy::deny::{digits_end, digits_value, entity_digit, next_html};
use crate::xss::legacy::legacy_xss;
use crate::xss::modern::classify::{
    any_hit, assignment_at, confirmed_at, spec_html_context, spec_xss_hits, MatchRule,
};
use crate::xss::modern::xss_snapshot_of;
use crate::snapshot::XssHtmlContext;
use crate::{finished, scanned, sqli_analysis, sqli_verdict, xss_analysis};

verus! {

/// The calls of time, file and XML functions that mark an injection
/// (`sleep(`, `benchmark(`, `load_file(`, `xp_cmdshell`, `waitfor delay`,
/// `extractvalue(`, `updatexml(`, `pg_sleep(`).
pub open spec fn listed_sql_function(p: Seq<u8>) -> bool {
    ||| p == seq![115u8, 108, 101, 101, 112, 40]
    ||| p == seq![98u8, 101, 110, 99, 104, 109, 97, 114, 107, 40]
    ||| p == seq![108u8, 111, 97, 100, 95, 102, 105, 108, 101, 40]
    ||| p == seq![120u8, 112, 95, 99, 109, 100, 115, 104, 101, 108, 108]
    ||| p == seq![119u8, 97, 105, 116, 102, 111, 114, 32, 100, 101, 108, 97, 121]
    ||| p == seq![101u8, 120, 116, 114, 97, 99, 116, 118, 97, 108, 117, 101, 40]
    ||| p == seq![117u8, 112, 100, 97, 116, 101, 120, 109, 108, 40]
    ||| p == seq![112u8, 103, 95, 115, 108, 101, 101, 112, 40]
}

/// The always-true conditions that mark an injection (`or 1=1`,
/// `or '1'='1`, `or "1"="1`, `and 1=1`, `or true`, `and true`, `'='`, `"="`).
pub open spec fn listed_tautology(p: Seq<u8>) -> bool {
    ||| p == seq![111u8, 114, 32, 49, 61, 49]
    ||| p == seq![111u8, 114, 32, 39, 49, 39, 61, 39, 49]
    ||| p == seq![111u8, 114, 32, 34, 49, 34, 61, 34, 49]
    ||| p == seq![97u8, 110, 100, 32, 49, 61, 49]
    ||| p == seq![111u8, 114, 32, 116, 114, 117, 101]
    ||| p == seq![97u8, 110, 100, 32, 116, 114, 117, 101]
    ||| p == seq![39u8, 61, 39]
    ||| p == seq![34u8, 61, 34]
}

/// The quote breaks that mark an injection (`' or`, `" or`, `';`, `";--`,
/// `'--`, `"--`).
pub open spec fn listed_string_break(p: Seq<u8>) -> bool {
    ||| p == seq![39u8, 32, 111, 114]
    ||| p == seq![34u8, 32, 111, 114]
    ||| p == seq![39u8, 59]
    ||| p == seq![34u8, 59, 45, 45]
    ||| p == seq![39u8, 45, 45]
    ||| p == seq![34u8, 45, 45]
}

/// The event attributes that mark script (`onerror`, `onload`, `onclick`,
/// `onmouseover`, `onfocus`, `onblur`, `onchange`, `onsubmit`).
pub open spec fn listed_event(p: Seq<u8>) -> bool {
    ||| p == seq![111u8, 110, 101, 114, 114, 111, 114]
    ||| p == seq![111u8, 110, 108, 111, 97, 100]
    ||| p == seq![111u8, 110, 99, 108, 105, 99, 107]
    ||| p == seq![111u8, 110, 109, 111, 117, 115, 101, 111, 118, 101, 114]
    ||| p == seq![111u8, 110, 102, 111, 99, 117, 115]
    ||| p == seq![111u8, 110, 98, 108, 117, 114]
    ||| p == seq![111u8, 110, 99, 104, 97, 110, 103, 101]
    ||| p == seq![111u8, 110, 115, 117, 98, 109, 105, 116]
}

/// A byte that is not a letter occurs in a case-insensitive match exactly.
proof fn lemma_ic_keeps_byte(s: Seq<u8>, pat: Seq<u8>, b: u8)
    requires
        contains_ic(s, pat),
        pat.contains(b),
        !(65 <= b <= 90),
        !(97 <= b <= 122),
    ensures
        s.contains(b),
{
    let i = choose|i: int| matches_ic_at(s, i, pat);
    let k = choose|k: int| 0 <= k < pat.len() && pat[k] == b;
    assert(eq_ic(s[i + k], pat[k]));
    assert(s[i + k] == b);
    assert(0 <= i + k < s.len());
}

/// The union, tautology, string-break and function-call bits of the `SQLi`
/// constructs are set when their detectors fire.
proof fn lemma_sqli_bit_of(
    b0: bool,
    b1: bool,
    b2: bool,
    b3: bool,
    b4: bool,
    b5: bool,
    b6: bool,
    b7: bool,
    b8: bool,
    b9: bool,
    b10: bool,
)
    ensures
        ({
            let e = construct_bit(b0, 1u32) | construct_bit(b1, 2u32) | construct_bit(b2, 4u32) | construct_bit(
                b3,
                8u32,
            ) | construct_bit(b4, 16u32) | construct_bit(b5, 32u32) | construct_bit(b6, 64u32) | construct_bit(
                b7,
                2048u32,
            ) | construct_bit(b8, 256u32) | construct_bit(b9, 512u32) | construct_bit(b10, 1024u32);
            &&& b0 ==> e & 1u32 == 1u32
            &&& b1 ==> e & 2u32 == 2u32
            &&& b2 ==> e & 4u32 == 4u32
            &&& b5 ==> e & 32u32 == 32u32
        }),
{
    let x0 = construct_bit(b0, 1u32);
    let x1 = construct_bit(b1, 2u32);
    let x2 = construct_bit(b2, 4u32);
    let x3 = construct_bit(b3, 8u32);
    let x4 = construct_bit(b4, 16u32);
    let x5 = construct_bit(b5, 32u32);
    let x6 = construct_bit(b6, 64u32);
    let x7 = construct_bit(b7, 2048u32);
    let x8 = construct_bit(b8, 256u32);
    let x9 = construct_bit(b9, 512u32);
    let x10 = construct_bit(b10, 1024u32);
    if b0 {
        assert(((((((((((x0 | x1) | x2) | x3) | x4) | x5) | x6) | x7) | x8) | x9) | x10) & 1u32 == 1u32)
            by (bit_vector)
            requires
                x0 == 1u32,
        ;
    }
    if b2 {
        assert(((((((((((x0 | x1) | x2) | x3) | x4) | x5) | x6) | x7) | x8) | x9) | x10) & 4u32 == 4u32)
            by (bit_vector)
            requires
                x2 == 4u32,
        ;
    }
    if b1 {
        assert(((((((((((x0 | x1) | x2) | x3) | x4) | x5) | x6) | x7) | x8) | x9) | x10) & 2u32 == 2u32)
            by (bit_vector)
            requires
                x1 == 2u32,
        ;
    }
    if b5 {
        assert(((((((((((x0 | x1) | x2) | x3) | x4) | x5) | x6) | x7) | x8) | x9) | x10) & 32u32 == 32u32)
            by (bit_vector)
            requires
                x5 == 32u32,
        ;
    }
}

/// The constructs of a stage-1 `SQLi` analysis of an input that passes the
/// prefilter are those its detectors give.
proof fn lemma_sqli_constructs_of(input: Seq<u8>, opts: AnalyzeOptions, r: AnalysisSnapshot)
    requires
        sqli_analysis(input, opts, r),
        spec_sqli_may_be_interesting(scanned(input, opts.spec_effective_max_input_len())),
    ensures
        ({
            let s = scanned(input, opts.spec_effective_max_input_len());
            let norm = spec_normalize(s).0;
            let union = seq![117u8, 110, 105, 111, 110];
            &&& has_word(s, union) || has_word(norm, union) ==> r.constructs.0 & 1u32 == 1u32
            &&& has_tautology(s) || has_tautology(norm) ==> r.constructs.0 & 2u32 == 2u32
            &&& has_string_break(s) ==> r.constructs.0 & 4u32 == 4u32
            &&& has_function(s) || has_function(norm) ==> r.constructs.0 & 32u32 == 32u32
        }),
{
    let n = opts.spec_effective_max_input_len();
    let s = scanned(input, n);
    let base = choose|base: AnalysisSnapshot|
        #[trigger] sqli_snapshot_of(s, base) && r == finished(base, input.len() > n, sqli_detect_mask());
    let norm = spec_normalize(s).0;
    let toks = stored_of(spec_tokens_from(s, 0));
    let h = spec_dialect_hits(s, toks);
    let union = seq![117u8, 110, 105, 111, 110];
    lemma_sqli_bit_of(
        has_word(s, union) || has_word(norm, union),
        has_tautology(s) || has_tautology(norm),
        has_string_break(s),
        has_stacked(s, toks),
        has_comment_injection(s, toks),
        has_function(s) || has_function(norm),
        has_boolean_blind(s) || has_boolean_blind(norm),
        has_keyword_chain(s) || has_keyword_chain(norm),
        has_versioned_comment(s, toks) || h.backtick || h.hash,
        h.bracket || h.exec_word,
        h.dual || h.q_quote,
    );
}

/// Bytes that hold a listed function call pass the `SQLi` prefilter: the
/// call's `(` does, and so do `xp_cmdshell` and `waitfor delay` themselves.
proof fn lemma_listed_call_passes_prefilter(s: Seq<u8>, call: Seq<u8>)
    requires
        listed_sql_function(call),
        contains_ic(s, call),
    ensures
        spec_sqli_may_be_interesting(s),
{
    let i = choose|i: int| matches_ic_at(s, i, call);
    assert(s.len() > 0);
    let k = call.len() - 1;
    if call[k] == 40u8 {
        assert(call.contains(40u8));
        lemma_ic_keeps_byte(s, call, 40u8);
    }
}

/// Stage-1 `SQLi` analysis reports a function call (`SQL_FUNCTION_CALL`)
/// whenever the scanned bytes call one of the listed time, file or XML
/// functions, in any letter case.
pub proof fn law_sqli_listed_function_call_is_reported(
    input: Seq<u8>,
    opts: AnalyzeOptions,
    r: AnalysisSnapshot,
    call: Seq<u8>,
)
    requires
        sqli_analysis(input, opts, r),
        listed_sql_function(call),
        contains_ic(scanned(input, opts.spec_effective_max_input_len()), call),
    ensures
        r.constructs.0 & ConstructFlags::SQL_FUNCTION_CALL != 0,
{
    let s = scanned(input, opts.spec_effective_max_input_len());
    lemma_listed_call_passes_prefilter(s, call);
    assert(has_function(s));
    lemma_sqli_constructs_of(input, opts, r);
    let c = r.constructs.0;
    assert(c & 32u32 == 32u32 ==> c & 32u32 != 0) by (bit_vector);
}

/// Stage-1 `SQLi` analysis reports a tautology (`SQL_TAUTOLOGY`) whenever the
/// scanned bytes hold one of the listed always-true conditions (any letter
/// case); one holding `=` always passes the prefilter, the others must pass it.
pub proof fn law_sqli_listed_tautology_is_reported(
    input: Seq<u8>,
    opts: AnalyzeOptions,
    r: AnalysisSnapshot,
    cond: Seq<u8>,
)
    requires
        sqli_analysis(input, opts, r),
        listed_tautology(cond),
        contains_ic(scanned(input, opts.spec_effective_max_input_len()), cond),
        cond.contains(61u8) || spec_sqli_may_be_interesting(scanned(input, opts.spec_effective_max_input_len())),
    ensures
        r.constructs.0 & ConstructFlags::SQL_TAUTOLOGY != 0,
{
    let s = scanned(input, opts.spec_effective_max_input_len());
    if cond.contains(61u8) {
        lemma_ic_keeps_byte(s, cond, 61u8);
    }
    assert(has_tautology(s));
    lemma_sqli_constructs_of(input, opts, r);
    let c = r.constructs.0;
    assert(c & 2u32 == 2u32 ==> c & 2u32 != 0) by (bit_vector);
}

/// Stage-1 `SQLi` analysis reports a string break (`SQL_STRING_BREAK`)
/// whenever the scanned bytes hold one of the listed quote breaks, in any
/// letter case.
pub proof fn law_sqli_listed_string_break_is_reported(
    input: Seq<u8>,
    opts: AnalyzeOptions,
    r: AnalysisSnapshot,
    brk: Seq<u8>,
)
    requires
        sqli_analysis(input, opts, r),
        listed_string_break(brk),
        contains_ic(scanned(input, opts.spec_effective_max_input_len()), brk),
    ensures
        r.constructs.0 & ConstructFlags::SQL_STRING_BREAK != 0,
{
    let s = scanned(input, opts.spec_effective_max_input_len());
    assert(brk.contains(brk[0]));
    lemma_ic_keeps_byte(s, brk, brk[0]);
    assert(has_string_break(s));
    lemma_sqli_constructs_of(input, opts, r);
    let c = r.constructs.0;
    assert(c & 4u32 == 4u32 ==> c & 4u32 != 0) by (bit_vector);
}

/// Stage-1 `SQLi` analysis reports `UNION` (`SQL_UNION`) whenever the word
/// `union` stands, as a whole word and in any letter case, in the scanned
/// bytes.
pub proof fn law_sqli_union_word_is_reported(input: Seq<u8>, opts: AnalyzeOptions, r: AnalysisSnapshot, p: int)
    requires
        sqli_analysis(input, opts, r),
        word_at(scanned(input, opts.spec_effective_max_input_len()), p, seq![117u8, 110, 105, 111, 110]),
    ensures
        r.constructs.0 & ConstructFlags::SQL_UNION != 0,
{
    let s = scanned(input, opts.spec_effective_max_input_len());
    let union = seq![117u8, 110, 105, 111, 110];
    assert(matches_ic_at(s, p, union));
    assert(contains_ic(s, union));
    assert(has_word(s, union));
    lemma_sqli_constructs_of(input, opts, r);
    let c = r.constructs.0;
    assert(c & 1u32 == 1u32 ==> c & 1u32 != 0) by (bit_vector);
}

/// `@detectSQLi` detects every scan that calls a listed function.
pub proof fn law_detect_sqli_listed_function_call(
    input: Seq<u8>,
    opts: AnalyzeOptions,
    v: DetectionVerdict,
    call: Seq<u8>,
)
    requires
        sqli_verdict(input, opts, v),
        listed_sql_function(call),
        contains_ic(scanned(input, opts.spec_effective_max_input_len()), call),
    ensures
        v.detected,
{
    let a = choose|base: AnalysisSnapshot|
        #[trigger] sqli_analysis(input, opts, base) && (v.snapshot.legacy_fingerprint.len == 0 ==> v.snapshot
            == base) && (v.snapshot.legacy_fingerprint.len > 0 ==> crate::with_legacy_fingerprint(base, v.snapshot));
    law_sqli_listed_function_call_is_reported(input, opts, a, call);
    let c = v.snapshot.constructs.0;
    assert(c & 32u32 != 0 ==> c & 0x0000_087Fu32 != 0) by (bit_vector);
}

/// `@detectSQLi` detects every scan that holds a listed tautology (under the
/// same prefilter condition as the analysis law).
pub proof fn law_detect_sqli_listed_tautology(
    input: Seq<u8>,
    opts: AnalyzeOptions,
    v: DetectionVerdict,
    cond: Seq<u8>,
)
    requires
        sqli_verdict(input, opts, v),
        listed_tautology(cond),
        contains_ic(scanned(input, opts.spec_effective_max_input_len()), cond),
        cond.contains(61u8) || spec_sqli_may_be_interesting(scanned(input, opts.spec_effective_max_input_len())),
    ensures
        v.detected,
{
    let a = choose|base: AnalysisSnapshot|
        #[trigger] sqli_analysis(input, opts, base) && (v.snapshot.legacy_fingerprint.len == 0 ==> v.snapshot
            == base) && (v.snapshot.legacy_fingerprint.len > 0 ==> crate::with_legacy_fingerprint(base, v.snapshot));
    law_sqli_listed_tautology_is_reported(input, opts, a, cond);
    let c = v.snapshot.constructs.0;
    assert(c & 2u32 != 0 ==> c & 0x0000_087Fu32 != 0) by (bit_vector);
}

/// The tag and event-handler bits of the XSS constructs are set when their
/// detectors fire.
proof fn lemma_xss_bits_of(
    b0: bool,
    b1: bool,
    b2: bool,
    b3: bool,
    b4: bool,
    b5: bool,
    b6: bool,
    b7: bool,
    b8: bool,
    b9: bool,
    b10: bool,
)
    ensures
        ({
            let e = construct_bit(b0, 0x0001_0000u32) | construct_bit(b1, 0x0002_0000u32) | construct_bit(
                b2,
                0x0004_0000u32,
            ) | construct_bit(b3, 0x0008_0000u32) | construct_bit(b4, 0x0010_0000u32) | construct_bit(
                b5,
                0x0020_0000u32,
            ) | construct_bit(b6, 0x0040_0000u32) | construct_bit(b7, 0x0080_0000u32) | construct_bit(
                b8,
                0x0100_0000u32,
            ) | construct_bit(b9, 0x0200_0000u32) | construct_bit(b10, 0x0400_0000u32);
            &&& b0 ==> e & 0x0001_0000u32 != 0
            &&& b1 ==> e & 0x0002_0000u32 != 0
            &&& b2 ==> e & 0x0004_0000u32 != 0
            &&& b3 ==> e & 0x0008_0000u32 != 0
            &&& b4 ==> e & 0x0010_0000u32 != 0
        }),
{
    let x0 = construct_bit(b0, 0x0001_0000u32);
    let x1 = construct_bit(b1, 0x0002_0000u32);
    let x2 = construct_bit(b2, 0x0004_0000u32);
    let x3 = construct_bit(b3, 0x0008_0000u32);
    let x4 = construct_bit(b4, 0x0010_0000u32);
    let x5 = construct_bit(b5, 0x0020_0000u32);
    let x6 = construct_bit(b6, 0x0040_0000u32);
    let x7 = construct_bit(b7, 0x0080_0000u32);
    let x8 = construct_bit(b8, 0x0100_0000u32);
    let x9 = construct_bit(b9, 0x0200_0000u32);
    let x10 = construct_bit(b10, 0x0400_0000u32);
    if b0 {
        assert(((((((((((x0 | x1) | x2) | x3) | x4) | x5) | x6) | x7) | x8) | x9) | x10) & 0x0001_0000u32 != 0)
            by (bit_vector)
            requires
                x0 == 0x0001_0000u32,
        ;
    }
    if b1 {
        assert(((((((((((x0 | x1) | x2) | x3) | x4) | x5) | x6) | x7) | x8) | x9) | x10) & 0x0002_0000u32 != 0)
            by (bit_vector)
            requires
                x1 == 0x0002_0000u32,
        ;
    }
    if b2 {
        assert(((((((((((x0 | x1) | x2) | x3) | x4) | x5) | x6) | x7) | x8) | x9) | x10) & 0x0004_0000u32 != 0)
            by (bit_vector)
            requires
                x2 == 0x0004_0000u32,
        ;
    }
    if b3 {
        assert(((((((((((x0 | x1) | x2) | x3) | x4) | x5) | x6) | x7) | x8) | x9) | x10) & 0x0008_0000u32 != 0)
            by (bit_vector)
            requires
                x3 == 0x0008_0000u32,
        ;
    }
    if b4 {
        assert(((((((((((x0 | x1) | x2) | x3) | x4) | x5) | x6) | x7) | x8) | x9) | x10) & 0x0010_0000u32 != 0)
            by (bit_vector)
            requires
                x4 == 0x0010_0000u32,
        ;
    }
}

/// The tag openers that mark script (`<script`, `<iframe`, `<object`,
/// `<svg`), each with the construct flag that reports it; `0` for any other
/// byte string.
pub open spec fn listed_tag_flag(tag: Seq<u8>) -> u32 {
    if tag == seq![60u8, 115, 99, 114, 105, 112, 116] {
        ConstructFlags::XSS_TAG_SCRIPT
    } else if tag == seq![60u8, 105, 102, 114, 97, 109, 101] {
        ConstructFlags::XSS_TAG_IFRAME
    } else if tag == seq![60u8, 111, 98, 106, 101, 99, 116] {
        ConstructFlags::XSS_TAG_OBJECT
    } else if tag == seq![60u8, 115, 118, 103] {
        ConstructFlags::XSS_TAG_SVG
    } else {
        0
    }
}

/// The constructs of a stage-1 XSS analysis in the data context are those
/// its detectors give.
proof fn lemma_xss_data_constructs_of(input: Seq<u8>, opts: AnalyzeOptions, r: AnalysisSnapshot)
    requires
        xss_analysis(input, opts, r),
        spec_xss_may_be_interesting(scanned(input, opts.spec_effective_max_input_len())),
        spec_html_context(scanned(input, opts.spec_effective_max_input_len())) == XssHtmlContext::Data,
    ensures
        ({
            let s = scanned(input, opts.spec_effective_max_input_len());
            let h = spec_xss_hits(s, spec_normalize(s).0, XssHtmlContext::Data);
            &&& h.script ==> r.constructs.0 & 0x0001_0000u32 != 0
            &&& h.iframe ==> r.constructs.0 & 0x0002_0000u32 != 0
            &&& h.object ==> r.constructs.0 & 0x0004_0000u32 != 0
            &&& h.svg ==> r.constructs.0 & 0x0008_0000u32 != 0
            &&& h.event ==> r.constructs.0 & 0x0010_0000u32 != 0
        }),
{
    let n = opts.spec_effective_max_input_len();
    let s = scanned(input, n);
    let base = choose|base: AnalysisSnapshot|
        #[trigger] xss_snapshot_of(s, base) && r == finished(base, input.len() > n, xss_detect_mask());
    let h = spec_xss_hits(s, spec_normalize(s).0, XssHtmlContext::Data);
    lemma_xss_bits_of(
        h.script,
        h.iframe,
        h.object,
        h.svg,
        h.event,
        h.javascript,
        h.data,
        h.expression,
        h.comment,
        h.doctype,
        legacy_xss(s) && !any_hit(h),
    );
}

/// Stage-1 XSS analysis in the data context reports each listed tag opener
/// (`<script`, `<iframe`, `<object`, `<svg`, any letter case) whose name
/// ends at a word boundary in the scanned bytes, under that tag's flag.
pub proof fn law_xss_listed_tag_is_reported(
    input: Seq<u8>,
    opts: AnalyzeOptions,
    r: AnalysisSnapshot,
    tag: Seq<u8>,
    p: int,
)
    requires
        xss_analysis(input, opts, r),
        listed_tag_flag(tag) != 0,
        spec_html_context(scanned(input, opts.spec_effective_max_input_len())) == XssHtmlContext::Data,
        matches_ic_at(scanned(input, opts.spec_effective_max_input_len()), p, tag),
        spec_word_boundary_after(scanned(input, opts.spec_effective_max_input_len()), p + 1, tag.len() - 1),
    ensures
        r.constructs.0 & listed_tag_flag(tag) != 0,
{
    let s = scanned(input, opts.spec_effective_max_input_len());
    assert(eq_ic(s[p + 0], tag[0]));
    assert(s[p] == 60u8);
    assert(s.contains(60u8));
    assert(spec_xss_may_be_interesting(s));
    assert(confirmed_at(s, p, tag, MatchRule::Tag));
    lemma_xss_data_constructs_of(input, opts, r);
}

/// Stage-1 XSS analysis in the data context reports an event handler
/// (`XSS_EVENT_HANDLER`) whenever a listed event attribute starts a word of
/// the scanned bytes and is assigned (`=` after optional spaces), in any
/// letter case.
pub proof fn law_xss_listed_event_handler_is_reported(
    input: Seq<u8>,
    opts: AnalyzeOptions,
    r: AnalysisSnapshot,
    name: Seq<u8>,
    p: int,
)
    requires
        xss_analysis(input, opts, r),
        listed_event(name),
        spec_html_context(scanned(input, opts.spec_effective_max_input_len())) == XssHtmlContext::Data,
        matches_ic_at(scanned(input, opts.spec_effective_max_input_len()), p, name),
        spec_word_boundary_before(scanned(input, opts.spec_effective_max_input_len()), p),
        assignment_at(scanned(input, opts.spec_effective_max_input_len()), p + name.len()),
    ensures
        r.constructs.0 & ConstructFlags::XSS_EVENT_HANDLER != 0,
{
    let s = scanned(input, opts.spec_effective_max_input_len());
    let q = crate::xss::modern::classify::skip_spaces(s, p + name.len());
    assert(s[q] == 61u8);
    assert(s.contains(61u8));
    assert(spec_xss_may_be_interesting(s));
    assert(confirmed_at(s, p, name, MatchRule::Event));
    let h = spec_xss_hits(s, spec_normalize(s).0, XssHtmlContext::Data);
    assert(h.event);
    lemma_xss_data_constructs_of(input, opts, r);
}

/// A three-token fingerprint whose middle token is neither a keyword nor an
/// operator is never excused by the whitelist: the `INTO` rule concerns
/// keywords only, and the other three-token rules need an operator there.
pub proof fn law_whitelist_keeps_three_tokens_without_keyword(
    input: Seq<u8>,
    w: Seq<SqliToken>,
    fp: Seq<u8>,
    tokens: int,
)
    requires
        fp.len() == 3,
        w[1].category != TT_KEYWORD,
        fp[1] != TT_OPERATOR,
        fp[1] != TT_LOGIC_OPERATOR,
    ensures
        whitelist_confirms(input, w, fp, tokens),
{
}

/// A numeric HTML entity with two hex digits, in either letter case, after
/// `&#x` or `&#X` and closed by `;`, decodes to the byte those digits give,
/// and decoding resumes after the `;`.
pub proof fn law_hex_entity_decodes(input: Seq<u8>, pos: int)
    requires
        0 <= pos,
        pos + 6 <= input.len(),
        input[pos] == 38,
        input[pos + 1] == 35,
        input[pos + 2] == 120 || input[pos + 2] == 88,
        spec_hex_nibble(input[pos + 3]) is Some,
        spec_hex_nibble(input[pos + 4]) is Some,
        input[pos + 5] == 59,
    ensures
        next_html(input, pos) == Some(
            (
                (spec_hex_nibble(input[pos + 3])->0 * 16 + spec_hex_nibble(input[pos + 4])->0) as u8,
                pos + 6,
            ),
        ),
{
    use_hex_digits(input, pos);
}

/// The two digits end at the `;`, and their value is that of the nibbles.
proof fn use_hex_digits(input: Seq<u8>, pos: int)
    requires
        0 <= pos,
        pos + 6 <= input.len(),
        spec_hex_nibble(input[pos + 3]) is Some,
        spec_hex_nibble(input[pos + 4]) is Some,
        input[pos + 5] == 59,
    ensures
        digits_end(input, pos + 3, true) == pos + 5,
        digits_value(input, pos + 3, pos + 5, true) == spec_hex_nibble(input[pos + 3])->0
            * 16 + spec_hex_nibble(input[pos + 4])->0,
{
    assert(digits_end(input, pos + 5, true) == pos + 5);
    assert(digits_end(input, pos + 4, true) == pos + 5);
    assert(entity_digit(input[pos + 3]) == spec_hex_nibble(input[pos + 3])->0);
    assert(entity_digit(input[pos + 4]) == spec_hex_nibble(input[pos + 4])->0);
    assert(digits_value(input, pos + 3, pos + 3, true) == 0);
    assert(digits_value(input, pos + 3, pos + 4, true) == entity_digit(input[pos + 3]));
}

} // verus!
