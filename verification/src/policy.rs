//! Built-in minimal detect policies for `@detectSQLi` / `@detectXSS`.
use vstd::prelude::*;
use crate::snapshot::ConstructFlags;

verus! {

/// Constructs that trigger built-in `@detectSQLi`.
pub open spec fn sqli_detect_mask() -> u32 {
    0x0000_087F
}

/// Constructs that trigger built-in `@detectXSS`.
pub open spec fn xss_detect_mask() -> u32 {
    0x03FF_0000
}

/// Dialect-only hints: ambiguous when scan/normalize was limited.
pub open spec fn weak_signal_mask() -> u32 {
    0x0000_0700
}

/// Constructs that trigger built-in `@detectSQLi` (library-side, backward compat).
pub fn builtin_sqli_detect() -> (r: ConstructFlags)
    ensures
        r.0 == sqli_detect_mask(),
        r.0 == ConstructFlags::SQL_UNION | ConstructFlags::SQL_TAUTOLOGY | ConstructFlags::SQL_STRING_BREAK
            | ConstructFlags::SQL_STACKED_QUERY | ConstructFlags::SQL_COMMENT_INJECTION
            | ConstructFlags::SQL_FUNCTION_CALL | ConstructFlags::SQL_BOOLEAN_BLIND
            | ConstructFlags::SQL_KEYWORD_CHAIN,
{
    assert((1u32 | 2u32 | 4u32 | 8u32 | 16u32 | 32u32 | 64u32 | 2048u32) == 0x087Fu32) by (bit_vector);
    ConstructFlags(0x087F)
}

/// Constructs that trigger built-in `@detectXSS`.
pub fn builtin_xss_detect() -> (r: ConstructFlags)
    ensures
        r.0 == xss_detect_mask(),
        r.0 == ConstructFlags::XSS_TAG_SCRIPT | ConstructFlags::XSS_TAG_IFRAME | ConstructFlags::XSS_TAG_OBJECT
            | ConstructFlags::XSS_TAG_SVG | ConstructFlags::XSS_EVENT_HANDLER
            | ConstructFlags::XSS_URL_JAVASCRIPT | ConstructFlags::XSS_URL_DATA
            | ConstructFlags::XSS_STYLE_EXPRESSION | ConstructFlags::XSS_COMMENT_BYPASS
            | ConstructFlags::XSS_DOCTYPE,
{
    assert((0x0001_0000u32 | 0x0002_0000u32 | 0x0004_0000u32 | 0x0008_0000u32
        | 0x0010_0000u32 | 0x0020_0000u32 | 0x0040_0000u32 | 0x0080_0000u32
        | 0x0100_0000u32 | 0x0200_0000u32) == 0x03FF_0000u32) by (bit_vector);
    ConstructFlags(0x03FF_0000)
}

/// Dialect-only hints: ambiguous when scan/normalize was limited.
pub fn weak_signal() -> (r: ConstructFlags)
    ensures
        r.0 == weak_signal_mask(),
        r.0 == ConstructFlags::SQL_DIALECT_MYSQL | ConstructFlags::SQL_DIALECT_MSSQL
            | ConstructFlags::SQL_DIALECT_ORACLE,
{
    assert((256u32 | 512u32 | 1024u32) == 0x0700u32) by (bit_vector);
    ConstructFlags(0x0700)
}

} // verus!
