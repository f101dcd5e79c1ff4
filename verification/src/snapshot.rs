//! Fixed-size analysis output: no heap fields.
use vstd::prelude::*;
use crate::limits::MAX_EVIDENCE;
use vstd::string::StringSliceAdditionalSpecFns;

verus! {

/// Stage-1 confidence hint for the caller. Not a block/allow decision.
#[derive(Clone, Copy, Debug, PartialEq, Eq, Structural)]
pub enum VerdictHint {
    /// No interesting constructs (or prefilter miss).
    Benign,
    /// Some constructs present; below built-in detect policy.
    Suspicious,
    /// Constructs match built-in detect policy.
    Decisive,
    /// Ambiguous (e.g. truncated); the caller may escalate to a deep pass.
    Inconclusive,
}

impl Default for VerdictHint {
    fn default() -> (r: Self)
        ensures
            r == VerdictHint::Benign,
    {
        VerdictHint::Benign
    }
}

/// Quote context used for a `SQLi` pass.
#[derive(Clone, Copy, Debug, PartialEq, Eq, Structural)]
pub enum SqliQuoteMode {
    /// Not inside a simulated string.
    Unquoted,
    /// Treat input as starting inside single quotes.
    Single,
    /// Treat input as starting inside double quotes.
    Double,
    /// Treat input as starting inside backticks (MySQL-style).
    Backtick,
}

impl Default for SqliQuoteMode {
    fn default() -> (r: Self)
        ensures
            r == SqliQuoteMode::Unquoted,
    {
        SqliQuoteMode::Unquoted
    }
}

/// HTML entry context for an XSS pass (five contexts).
#[derive(Clone, Copy, Debug, PartialEq, Eq, Structural)]
pub enum XssHtmlContext {
    /// Normal HTML data / text.
    Data,
    /// Inside an unquoted attribute value.
    AttrUnquoted,
    /// Inside a single-quoted attribute value.
    AttrSingle,
    /// Inside a double-quoted attribute value.
    AttrDouble,
    /// Inside a backtick-quoted attribute value.
    AttrBacktick,
}

impl Default for XssHtmlContext {
    fn default() -> (r: Self)
        ensures
            r == XssHtmlContext::Data,
    {
        XssHtmlContext::Data
    }
}

/// Dialect hint derived from tokens/constructs.
#[derive(Clone, Copy, Debug, PartialEq, Eq, Structural)]
pub enum SqlDialect {
    /// ANSI / generic SQL.
    Ansi,
    /// MySQL-oriented (backticks, `#`, `/*!`).
    Mysql,
    /// MSSQL-oriented (brackets, EXEC, etc.).
    Mssql,
    /// Oracle-oriented (q-quote, dual, etc.).
    Oracle,
}

impl Default for SqlDialect {
    fn default() -> (r: Self)
        ensures
            r == SqlDialect::Ansi,
    {
        SqlDialect::Ansi
    }
}

/// Parse context recorded on one `AnalysisSnapshot`.
#[derive(Clone, Copy, Debug, PartialEq, Eq, Structural)]
pub struct AnalysisContext {
    /// `SQLi` quote mode for this analysis pass.
    pub sqli_quote_mode: SqliQuoteMode,
    /// XSS HTML entry context for this analysis pass.
    pub xss_html_context: XssHtmlContext,
    /// Best-effort SQL dialect hint from stage 1.
    pub dialect: SqlDialect,
}

impl Default for AnalysisContext {
    fn default() -> (r: Self)
        ensures
            r == (AnalysisContext {
                sqli_quote_mode: SqliQuoteMode::Unquoted,
                xss_html_context: XssHtmlContext::Data,
                dialect: SqlDialect::Ansi,
            }),
    {
        AnalysisContext {
            sqli_quote_mode: SqliQuoteMode::Unquoted,
            xss_html_context: XssHtmlContext::Data,
            dialect: SqlDialect::Ansi,
        }
    }
}

/// Bitset of SQL/XSS constructs found in one analysis pass.
///
/// `SQLi` uses bits 0 through 15. XSS uses bits 16 through 27.
#[derive(Clone, Copy, Debug, PartialEq, Eq, Structural)]
pub struct ConstructFlags(pub u32);

impl ConstructFlags {
    /// `UNION` / `UNION ALL` style injection.
    pub const SQL_UNION: u32 = 1;
    /// Tautology such as `OR 1=1` / `AND 'a'='a'`.
    pub const SQL_TAUTOLOGY: u32 = 2;
    /// Quote or comment used to break out of a string/context.
    pub const SQL_STRING_BREAK: u32 = 4;
    /// Semicolon-chained / stacked queries.
    pub const SQL_STACKED_QUERY: u32 = 8;
    /// Comment markers used as injection glue (`--`, `#`, `/* */`).
    pub const SQL_COMMENT_INJECTION: u32 = 16;
    /// Dangerous or probing function calls (`SLEEP`, `LOAD_FILE`, ...).
    pub const SQL_FUNCTION_CALL: u32 = 32;
    /// Boolean logic with comparisons (blind `SQLi` style).
    pub const SQL_BOOLEAN_BLIND: u32 = 64;
    /// Arithmetic / numeric injection patterns.
    pub const SQL_NUMERIC_INJECTION: u32 = 128;
    /// MySQL-specific syntax hints.
    pub const SQL_DIALECT_MYSQL: u32 = 256;
    /// MSSQL-specific syntax hints.
    pub const SQL_DIALECT_MSSQL: u32 = 512;
    /// Oracle-specific syntax hints.
    pub const SQL_DIALECT_ORACLE: u32 = 1024;
    /// Keyword chains such as `SELECT ... FROM` / `UNION ALL`.
    pub const SQL_KEYWORD_CHAIN: u32 = 2048;
    /// `<script>` (or equivalent) tag.
    pub const XSS_TAG_SCRIPT: u32 = 0x0001_0000;
    /// `<iframe>` tag.
    pub const XSS_TAG_IFRAME: u32 = 0x0002_0000;
    /// `<object>` tag.
    pub const XSS_TAG_OBJECT: u32 = 0x0004_0000;
    /// SVG-related tag family.
    pub const XSS_TAG_SVG: u32 = 0x0008_0000;
    /// Event handler attribute (`onclick`, `onerror`, ...).
    pub const XSS_EVENT_HANDLER: u32 = 0x0010_0000;
    /// `javascript:` URL scheme.
    pub const XSS_URL_JAVASCRIPT: u32 = 0x0020_0000;
    /// `data:` URL scheme.
    pub const XSS_URL_DATA: u32 = 0x0040_0000;
    /// CSS `expression(...)` style vectors.
    pub const XSS_STYLE_EXPRESSION: u32 = 0x0080_0000;
    /// Comment / IE / backtick style bypass tricks.
    pub const XSS_COMMENT_BYPASS: u32 = 0x0100_0000;
    /// `<!DOCTYPE>` related vector.
    pub const XSS_DOCTYPE: u32 = 0x0200_0000;
    /// Only the HTML deny-list engine matched (no specific construct above).
    pub const XSS_HTML_DENYLIST: u32 = 0x0400_0000;

    /// No constructs set.
    pub fn empty() -> (r: Self)
        ensures
            r.0 == 0,
    {
        ConstructFlags(0)
    }

    /// True if any `SQLi` bit (low 16) is set.
    pub open spec fn spec_any_sqli(self) -> bool {
        (self.0 & 0x0000_FFFF) != 0
    }

    /// True if any XSS bit (bits 16 through 27) is set.
    pub open spec fn spec_any_xss(self) -> bool {
        (self.0 & 0x0FFF_0000) != 0
    }

    /// True if any bit in `mask` overlaps this set.
    pub open spec fn spec_intersects(self, mask: Self) -> bool {
        (self.0 & mask.0) != 0
    }

    /// The empty set meets no mask.
    pub proof fn lemma_empty_meets_nothing(mask: Self)
        ensures
            !ConstructFlags(0).spec_intersects(mask),
            !ConstructFlags(0).spec_any_sqli(),
            !ConstructFlags(0).spec_any_xss(),
    {
        let m = mask.0;
        assert(0u32 & m == 0) by (bit_vector);
        assert(0u32 & 0x0000_FFFFu32 == 0) by (bit_vector);
        assert(0u32 & 0x0FFF_0000u32 == 0) by (bit_vector);
    }

    /// True if any `SQLi` bit (low 16) is set.
    pub fn any_sqli(self) -> (r: bool)
        ensures
            r == self.spec_any_sqli(),
    {
        (self.0 & 0x0000_FFFF) != 0
    }

    /// True if any XSS bit (bits 16 through 27) is set.
    pub fn any_xss(self) -> (r: bool)
        ensures
            r == self.spec_any_xss(),
    {
        (self.0 & 0x0FFF_0000) != 0
    }

    /// True if any bit in `mask` overlaps this set.
    pub fn intersects(self, mask: Self) -> (r: bool)
        ensures
            r == self.spec_intersects(mask),
    {
        (self.0 & mask.0) != 0
    }
}

impl Default for ConstructFlags {
    fn default() -> (r: Self)
        ensures
            r.0 == 0,
    {
        ConstructFlags(0)
    }
}

/// `mask` when `b` holds, else `0`.
pub open spec fn construct_bit(b: bool, mask: u32) -> u32 {
    if b {
        mask
    } else {
        0
    }
}

/// `mask` when `b` holds, else `0`.
pub fn construct_bit_if(b: bool, mask: u32) -> (r: u32)
    ensures
        r == construct_bit(b, mask),
{
    if b {
        mask
    } else {
        0
    }
}

/// `bit` when `b` holds, else `0`.
pub open spec fn status_bit(b: bool, bit: u16) -> u16 {
    if b {
        bit
    } else {
        0
    }
}

/// `bit` when `b` holds, else `0`.
pub fn status_bit_if(b: bool, bit: u16) -> (r: u16)
    ensures
        r == status_bit(b, bit),
{
    if b {
        bit
    } else {
        0
    }
}

/// Status flags for normalize/parse (truncation, prefilter, legacy FP, ...).
#[derive(Clone, Copy, Debug, PartialEq, Eq, Structural)]
pub struct AnalysisFlags(pub u16);

impl AnalysisFlags {
    /// Input or norm buffer exceeded a cap; only a prefix was used.
    pub const TRUNCATED: u16 = 1;
    /// `legacy_fingerprint` is valid.
    pub const LEGACY_FP_AVAILABLE: u16 = 2;
    /// More than one quote/HTML context was tried.
    pub const MULTI_CONTEXT: u16 = 4;
    /// Fast prefilter found nothing interesting.
    pub const PREFILTER_MISS: u16 = 8;
    /// Token buffer filled (`MAX_TOKEN_SLOTS`).
    pub const TOKEN_LIMIT: u16 = 16;

    /// No status bits set.
    pub fn empty() -> (r: Self)
        ensures
            r.0 == 0,
    {
        AnalysisFlags(0)
    }

    /// True if `bit` is set in this flags word.
    pub open spec fn spec_contains(self, bit: u16) -> bool {
        (self.0 & bit) != 0
    }

    /// True if `bit` is set in this flags word.
    pub fn contains(self, bit: u16) -> (r: bool)
        ensures
            r == self.spec_contains(bit),
    {
        (self.0 & bit) != 0
    }
}

impl Default for AnalysisFlags {
    fn default() -> (r: Self)
        ensures
            r.0 == 0,
    {
        AnalysisFlags(0)
    }
}

/// One evidence region in the original input slice.
#[derive(Clone, Copy, Debug, PartialEq, Eq, Structural)]
pub struct EvidenceSpan {
    /// Byte offset into the original input.
    pub offset: u16,
    /// Length in bytes from `offset`.
    pub len: u16,
}

impl Default for EvidenceSpan {
    fn default() -> (r: Self)
        ensures
            r.offset == 0 && r.len == 0,
    {
        EvidenceSpan { offset: 0, len: 0 }
    }
}

/// Fixed set of evidence spans (at most [`MAX_EVIDENCE`]).
#[derive(Clone, Copy, Debug, PartialEq, Eq)]
pub struct EvidenceSet {
    /// Span slots (only the first `count` are meaningful).
    pub spans: [EvidenceSpan; 4],
    /// Number of valid spans in `spans`.
    pub count: u8,
}

impl EvidenceSet {
    /// The set holds at most [`MAX_EVIDENCE`] spans.
    pub open spec fn wf(self) -> bool {
        self.count as usize <= MAX_EVIDENCE
    }

    /// The slots after the recorded spans are zero.
    pub open spec fn tail_clear(self) -> bool {
        forall|i: int| self.count <= i < 4 ==> #[trigger] self.spans@[i] == (EvidenceSpan { offset: 0, len: 0 })
    }

    /// Every recorded span lies within an input of `len` bytes.
    pub open spec fn within(self, len: int) -> bool {
        forall|i: int|
            0 <= i < self.count ==> #[trigger] self.spans@[i].offset + self.spans@[i].len <= len
    }

    /// The empty evidence set.
    pub fn empty() -> (r: Self)
        ensures
            r.count == 0,
            r.wf(),
            r.tail_clear(),
            forall|len: int| #[trigger] r.within(len),
    {
        let z = EvidenceSpan { offset: 0, len: 0 };
        EvidenceSet { spans: [z, z, z, z], count: 0 }
    }
}

impl Default for EvidenceSet {
    fn default() -> (r: Self)
        ensures
            r.count == 0,
            r.wf(),
            r.tail_clear(),
    {
        EvidenceSet::empty()
    }
}

/// Legacy libinjection type-byte fingerprint (compat view for audit / corpus).
///
/// Not the primary signal; [`ConstructFlags`] is.
#[derive(Clone, Copy, Debug, PartialEq, Eq)]
pub struct LegacyFingerprint {
    /// Fingerprint bytes (only `len` leading bytes are significant).
    pub bytes: [u8; 8],
    /// Significant length of `bytes` (0 means none).
    pub len: u8,
}

impl LegacyFingerprint {
    /// No fingerprint: length zero and every byte zero.
    pub open spec fn is_clear(self) -> bool {
        self.len == 0 && forall|i: int| 0 <= i < 8 ==> #[trigger] self.bytes@[i] == 0
    }

    /// The empty fingerprint.
    pub fn none() -> (r: Self)
        ensures
            r.is_clear(),
    {
        LegacyFingerprint { bytes: [0u8, 0, 0, 0, 0, 0, 0, 0], len: 0 }
    }
}

impl Default for LegacyFingerprint {
    fn default() -> (r: Self)
        ensures
            r.is_clear(),
    {
        LegacyFingerprint::none()
    }
}

/// `core::str::from_utf8`: `Some` exactly for valid UTF-8, with the same bytes.
#[verifier::external_body]
fn str_from_utf8(bytes: &[u8]) -> (r: Option<&str>)
    ensures
        r is Some <==> vstd::utf8::valid_utf8(bytes@),
        r matches Some(s) ==> s.spec_bytes() == bytes@,
{
    core::str::from_utf8(bytes).ok()
}

impl LegacyFingerprint {
    /// UTF-8 view of the significant fingerprint bytes, if any.
    pub fn as_str(&self) -> (r: Option<&str>)
        ensures
            self.len == 0 ==> r is None,
            self.len > 8 ==> r is None,
            (0 < self.len <= 8) ==> (r is Some <==> vstd::utf8::valid_utf8(
                self.bytes@.subrange(0, self.len as int),
            )),
            r matches Some(s) ==> s.spec_bytes() == self.bytes@.subrange(0, self.len as int),
    {
        if self.len == 0 {
            return None;
        }
        let end = self.len as usize;
        if end > 8 {
            return None;
        }
        let bytes: &[u8] = self.bytes.as_slice();
        str_from_utf8(&bytes[0..end])
    }
}

/// Result of one stage-1 analysis pass over a single field value.
///
/// All evidence spans index into the original input passed to `analyze_*`.
#[derive(Clone, Copy, Debug, PartialEq, Eq)]
pub struct AnalysisSnapshot {
    /// SQL/XSS constructs found (primary signal).
    pub constructs: ConstructFlags,
    /// Normalize/parse status (truncation, prefilter, legacy FP, ...).
    pub flags: AnalysisFlags,
    /// Non-binding hint for the caller (including possible deep escalation).
    pub verdict_hint: VerdictHint,
    /// Quote / HTML / dialect context for this pass.
    pub context: AnalysisContext,
    /// Up to [`MAX_EVIDENCE`] regions in the original input.
    pub evidence: EvidenceSet,
    /// Derived legacy fingerprint when the legacy engine produced one.
    pub legacy_fingerprint: LegacyFingerprint,
}

impl AnalysisSnapshot {
    /// The benign snapshot, as a value.
    pub open spec fn is_benign(self) -> bool {
        &&& self.constructs.0 == 0
        &&& self.flags.0 == 0
        &&& self.verdict_hint == VerdictHint::Benign
        &&& self.context == (AnalysisContext {
            sqli_quote_mode: SqliQuoteMode::Unquoted,
            xss_html_context: XssHtmlContext::Data,
            dialect: SqlDialect::Ansi,
        })
        &&& self.evidence.count == 0
        &&& self.evidence.tail_clear()
        &&& self.legacy_fingerprint.is_clear()
    }

    /// Empty/clean snapshot: no constructs, [`VerdictHint::Benign`].
    pub fn benign() -> (r: Self)
        ensures
            r.is_benign(),
            r.evidence.wf(),
    {
        AnalysisSnapshot {
            constructs: ConstructFlags(0),
            flags: AnalysisFlags(0),
            verdict_hint: VerdictHint::Benign,
            context: AnalysisContext {
                sqli_quote_mode: SqliQuoteMode::Unquoted,
                xss_html_context: XssHtmlContext::Data,
                dialect: SqlDialect::Ansi,
            },
            evidence: EvidenceSet::empty(),
            legacy_fingerprint: LegacyFingerprint::none(),
        }
    }
}

impl Default for AnalysisSnapshot {
    fn default() -> (r: Self)
        ensures
            r.is_benign(),
    {
        Self::benign()
    }
}

/// Built-in minimal policy result for `@detectSQLi` / `@detectXSS`.
#[derive(Clone, Copy, Debug, PartialEq, Eq)]
pub struct DetectionVerdict {
    /// Whether the built-in detect policy matched.
    pub detected: bool,
    /// Full stage-1 analysis output.
    pub snapshot: AnalysisSnapshot,
}

impl DetectionVerdict {
    /// No detection; snapshot is [`AnalysisSnapshot::benign`].
    pub fn benign() -> (r: Self)
        ensures
            !r.detected,
            r.snapshot.is_benign(),
    {
        DetectionVerdict { detected: false, snapshot: AnalysisSnapshot::benign() }
    }
}

} // verus!
