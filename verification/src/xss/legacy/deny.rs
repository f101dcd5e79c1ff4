//! Deny-list checks of the legacy XSS engine (tags, attributes, URLs, comments).
use vstd::prelude::*;
use crate::engine::ascii::{byte_eq_ic, contains_byte, eq_ic, to_upper, upper};
use crate::xss::legacy::deny_list::{
    attr_word_kind, deny_attr_word, deny_event_word, deny_tag_word, is_deny_event_word, is_deny_tag_word,
    DenyAttrKind,
};

verus! {

/// `s` without its NUL bytes.
pub open spec fn strip_nul(s: Seq<u8>) -> Seq<u8>
    decreases s.len(),
{
    if s.len() == 0 {
        s
    } else if s.last() == 0 {
        strip_nul(s.drop_last())
    } else {
        strip_nul(s.drop_last()).push(s.last())
    }
}

/// `s` without its NUL bytes, in ASCII upper case.
pub open spec fn folded(s: Seq<u8>) -> Seq<u8> {
    strip_nul(s).map_values(|b: u8| upper(b))
}

/// `s` starts with `p`.
pub open spec fn has_prefix(s: Seq<u8>, p: Seq<u8>) -> bool {
    s.len() >= p.len() && s.subrange(0, p.len() as int) == p
}

/// A tag name that is an XSS vector: a denied tag, or any `SVG*` / `XSL*` tag
/// (NUL bytes ignored, any letter case).
pub open spec fn spec_is_deny_tag(name: Seq<u8>) -> bool {
    let f = folded(name);
    deny_tag_word(f) || has_prefix(f, seq![83u8, 86, 71]) || has_prefix(f, seq![88u8, 83, 76])
}

/// How an attribute name is treated: `XMLNS*` / `XLINK*` and `ON` + a denied
/// event are denied; otherwise the attribute list decides (NUL bytes ignored,
/// any letter case).
pub open spec fn spec_deny_attr(name: Seq<u8>) -> DenyAttrKind {
    let f = folded(name);
    if has_prefix(f, seq![88u8, 77, 76, 78, 83]) || has_prefix(f, seq![88u8, 76, 73, 78, 75]) {
        DenyAttrKind::Deny
    } else if has_prefix(f, seq![79u8, 78]) && f.len() <= 64 && deny_event_word(f.subrange(2, f.len() as int)) {
        DenyAttrKind::Deny
    } else {
        deny_attr_word(f)
    }
}

/// A comment body that is an XSS vector: a backtick, an IE conditional
/// (`[if...`), an `xml...` body longer than three bytes, or an `IMPORT` /
/// `ENTITY` declaration (NUL bytes ignored, any letter case).
pub open spec fn spec_is_deny_comment(body: Seq<u8>) -> bool {
    let f = folded(body);
    ||| body.contains(96u8)
    ||| has_prefix(f, seq![91u8, 73, 70]) && f.len() > 3
    ||| has_prefix(f, seq![88u8, 77, 76]) && f.len() > 3
    ||| has_prefix(f, seq![73u8, 77, 80, 79, 82, 84])
    ||| has_prefix(f, seq![69u8, 78, 84, 73, 84, 89])
}

/// The first `min(len, 64)` folded bytes of a name, and its folded length.
pub struct FoldedName {
    /// Folded bytes (the first `min(len, 64)` are meaningful).
    pub buf: [u8; 64],
    /// Length of the whole folded name.
    pub len: usize,
}

impl FoldedName {
    /// The meaningful bytes of `buf`.
    pub open spec fn kept(self) -> int {
        if self.len < 64 {
            self.len as int
        } else {
            64
        }
    }

    /// `self` holds the folded form of `s`.
    pub open spec fn folds(self, s: Seq<u8>) -> bool {
        &&& self.len == folded(s).len()
        &&& self.buf@.subrange(0, self.kept()) == folded(s).subrange(0, self.kept())
    }

    /// For prefixes of at most 64 bytes, the kept bytes decide `has_prefix`.
    pub proof fn lemma_prefix(self, s: Seq<u8>, p: Seq<u8>)
        requires
            self.folds(s),
            p.len() <= 64,
        ensures
            (self.len >= p.len() && self.buf@.subrange(0, p.len() as int) == p) == has_prefix(folded(s), p),
    {
        if self.len >= p.len() {
            assert(self.buf@.subrange(0, p.len() as int) =~= self.buf@.subrange(0, self.kept()).subrange(
                0,
                p.len() as int,
            ));
            assert(folded(s).subrange(0, p.len() as int) =~= folded(s).subrange(0, self.kept()).subrange(
                0,
                p.len() as int,
            ));
        }
    }

    /// The folded name starts with `p` (at most 64 bytes).
    pub fn starts_with(&self, p: &[u8]) -> (r: bool)
        requires
            p@.len() <= 64,
        ensures
            r == (self.len >= p@.len() && self.buf@.subrange(0, p@.len() as int) == p@),
    {
        if self.len < p.len() {
            return false;
        }
        let mut i: usize = 0;
        while i < p.len()
            invariant
                p@.len() <= 64,
                i <= p@.len(),
                forall|k: int| 0 <= k < i ==> self.buf@[k] == p@[k],
            decreases p@.len() - i,
        {
            if self.buf[i] != p[i] {
                return false;
            }
            i += 1;
        }
        assert(self.buf@.subrange(0, p@.len() as int) =~= p@);
        true
    }
}

/// NUL bytes stripped from one more byte.
proof fn lemma_strip_step(s: Seq<u8>, i: int)
    requires
        0 <= i < s.len(),
    ensures
        strip_nul(s.subrange(0, i + 1)) == if s[i] == 0 {
            strip_nul(s.subrange(0, i))
        } else {
            strip_nul(s.subrange(0, i)).push(s[i])
        },
{
    assert(s.subrange(0, i + 1).drop_last() =~= s.subrange(0, i));
}

/// Fold `s`: drop NUL bytes and uppercase, keeping the first 64 bytes.
pub fn fold_name(s: &[u8]) -> (r: FoldedName)
    ensures
        r.folds(s@),
{
    let mut buf = [0u8; 64];
    let mut n: usize = 0;
    let mut i: usize = 0;
    while i < s.len()
        invariant
            i <= s@.len(),
            n == strip_nul(s@.subrange(0, i as int)).len(),
            n <= i,
            forall|k: int|
                0 <= k < n && k < 64 ==> buf@[k] == upper(strip_nul(s@.subrange(0, i as int))[k]),
        decreases s@.len() - i,
    {
        proof {
            lemma_strip_step(s@, i as int);
        }
        let b = s[i];
        if b != 0 {
            if n < 64 {
                buf[n] = to_upper(b);
            }
            n += 1;
        }
        i += 1;
    }
    assert(s@.subrange(0, s@.len() as int) =~= s@);
    let r = FoldedName { buf, len: n };
    assert(r.buf@.subrange(0, r.kept()) =~= folded(s@).subrange(0, r.kept()));
    r
}

/// Whether a tag name is an XSS vector.
pub fn is_deny_tag(name: &[u8]) -> (r: bool)
    ensures
        r == spec_is_deny_tag(name@),
{
    let f = fold_name(name);
    let ghost fs = folded(name@);
    let listed = if f.len <= 64 {
        let b: &[u8] = f.buf.as_slice();
        let w: &[u8] = &b[0..f.len];
        assert(w@ =~= fs);
        is_deny_tag_word(w)
    } else {
        false
    };
    let svg: &[u8] = &[83u8, 86, 71];
    let xsl: &[u8] = &[88u8, 83, 76];
    proof {
        f.lemma_prefix(name@, svg@);
        f.lemma_prefix(name@, xsl@);
    }
    listed || f.starts_with(svg) || f.starts_with(xsl)
}

/// How an attribute name is treated.
pub fn is_deny_attr(name: &[u8]) -> (r: DenyAttrKind)
    ensures
        r == spec_deny_attr(name@),
{
    let f = fold_name(name);
    let ghost fs = folded(name@);
    let xmlns: &[u8] = &[88u8, 77, 76, 78, 83];
    let xlink: &[u8] = &[88u8, 76, 73, 78, 75];
    let on: &[u8] = &[79u8, 78];
    proof {
        f.lemma_prefix(name@, xmlns@);
        f.lemma_prefix(name@, xlink@);
        f.lemma_prefix(name@, on@);
    }
    if f.starts_with(xmlns) || f.starts_with(xlink) {
        return DenyAttrKind::Deny;
    }
    if f.len > 64 {
        proof {
            assert(deny_attr_word(fs) == DenyAttrKind::NotListed);
        }
        return DenyAttrKind::NotListed;
    }
    let b: &[u8] = f.buf.as_slice();
    let w: &[u8] = &b[0..f.len];
    assert(w@ =~= fs);
    if f.starts_with(on) {
        let suffix: &[u8] = &w[2..f.len];
        assert(suffix@ =~= fs.subrange(2, fs.len() as int));
        if is_deny_event_word(suffix) {
            return DenyAttrKind::Deny;
        }
    }
    attr_word_kind(w)
}

/// Whether a comment body is an XSS vector.
pub fn is_deny_comment(body: &[u8]) -> (r: bool)
    ensures
        r == spec_is_deny_comment(body@),
{
    if contains_byte(body, 96u8) {
        return true;
    }
    let f = fold_name(body);
    let cond: &[u8] = &[91u8, 73, 70];
    let xml: &[u8] = &[88u8, 77, 76];
    let import: &[u8] = &[73u8, 77, 80, 79, 82, 84];
    let entity: &[u8] = &[69u8, 78, 84, 73, 84, 89];
    proof {
        f.lemma_prefix(body@, cond@);
        f.lemma_prefix(body@, xml@);
        f.lemma_prefix(body@, import@);
        f.lemma_prefix(body@, entity@);
    }
    (f.starts_with(cond) && f.len > 3) || (f.starts_with(xml) && f.len > 3) || f.starts_with(import)
        || f.starts_with(entity)
}

/// Index of the first byte at or after `i` that is printable ASCII (not a
/// space, control or high byte); `input.len()` when none.
pub open spec fn skip_unprintable(input: Seq<u8>, i: int) -> int
    decreases input.len() - i,
{
    if i < 0 || i >= input.len() {
        if i < 0 { 0 } else { i }
    } else if 32 < input[i] < 127 {
        i
    } else {
        skip_unprintable(input, i + 1)
    }
}

/// `b` is a digit in base 16 (`hex`) or 10.
pub open spec fn is_entity_digit(b: u8, hex: bool) -> bool {
    if hex {
        (48 <= b <= 57) || (97 <= b <= 102) || (65 <= b <= 70)
    } else {
        48 <= b <= 57
    }
}

/// Value of an entity digit.
pub open spec fn entity_digit(b: u8) -> int {
    if 48 <= b <= 57 {
        b - 48
    } else if 97 <= b <= 102 {
        b - 97 + 10
    } else {
        b - 65 + 10
    }
}

/// End of the run of entity digits starting at `i`.
pub open spec fn digits_end(input: Seq<u8>, i: int, hex: bool) -> int
    decreases input.len() - i,
{
    if i < 0 || i >= input.len() || !is_entity_digit(input[i], hex) {
        i
    } else {
        digits_end(input, i + 1, hex)
    }
}

/// Numeric value of the entity digits `input[start..end]`.
pub open spec fn digits_value(input: Seq<u8>, start: int, end: int, hex: bool) -> int
    decreases end - start,
{
    if end <= start {
        0
    } else {
        digits_value(input, start, end - 1, hex) * (if hex { 16int } else { 10int }) + entity_digit(input[end - 1])
    }
}

/// The byte at `input[pos..]` after decoding one numeric HTML entity
/// (`&#NN;`, `&#xHH;`, the `;` optional), with the position after it; `None` at
/// the end of input, for an entity without digits, or one above 255.
pub open spec fn next_html(input: Seq<u8>, pos: int) -> Option<(u8, int)> {
    if pos < 0 || pos >= input.len() {
        None
    } else if pos + 1 < input.len() && input[pos] == 38 && input[pos + 1] == 35 {
        let c0 = pos + 2;
        let hex = c0 < input.len() && (input[c0] == 120 || input[c0] == 88);
        let start = if hex { c0 + 1 } else { c0 };
        let end = digits_end(input, start, hex);
        let value = digits_value(input, start, end, hex);
        if end == start || value > 255 {
            None
        } else if end < input.len() && input[end] == 59 {
            Some((value as u8, end + 1))
        } else {
            Some((value as u8, end))
        }
    } else {
        Some((input[pos], pos + 1))
    }
}

/// Where the cursor stands after decoding at `pos`: past an entity with
/// digits (and its `;`), past one raw byte, or unmoved at the end of input or
/// on an entity without digits.
pub open spec fn html_step_end(input: Seq<u8>, pos: int) -> int {
    if pos < 0 || pos >= input.len() {
        pos
    } else if pos + 1 < input.len() && input[pos] == 38 && input[pos + 1] == 35 {
        let c0 = pos + 2;
        let hex = c0 < input.len() && (input[c0] == 120 || input[c0] == 88);
        let start = if hex { c0 + 1 } else { c0 };
        let end = digits_end(input, start, hex);
        if end == start {
            pos
        } else if end < input.len() && input[end] == 59 {
            end + 1
        } else {
            end
        }
    } else {
        pos + 1
    }
}

/// The decoded bytes from `pos` on start with `expected[k..]` (ASCII case-insensitive).
pub open spec fn html_prefix_from(input: Seq<u8>, pos: int, expected: Seq<u8>, k: int) -> bool
    decreases expected.len() - k,
{
    if k >= expected.len() {
        true
    } else {
        match next_html(input, pos) {
            None => false,
            Some((b, p)) => eq_ic(b, expected[k]) && html_prefix_from(input, p, expected, k + 1),
        }
    }
}

/// After skipping leading unprintable bytes, the entity-decoded input starts
/// with `expected` (ASCII case-insensitive).
pub open spec fn spec_html_starts_with(input: Seq<u8>, expected: Seq<u8>) -> bool {
    html_prefix_from(input, skip_unprintable(input, 0), expected, 0)
}

/// A URL value that is an XSS vector: after leading unprintable bytes it
/// starts with `DATA`, `VIEW-SOURCE`, `JAVA` or `VBSCRIPT`, entities decoded,
/// any letter case.
pub open spec fn spec_is_deny_url(value: Seq<u8>) -> bool {
    let s = value.subrange(skip_unprintable(value, 0), value.len() as int);
    ||| spec_html_starts_with(s, seq![68u8, 65, 84, 65])
    ||| spec_html_starts_with(s, seq![86u8, 73, 69, 87, 45, 83, 79, 85, 82, 67, 69])
    ||| spec_html_starts_with(s, seq![74u8, 65, 86, 65])
    ||| spec_html_starts_with(s, seq![86u8, 66, 83, 67, 82, 73, 80, 84])
}

/// Saturation commutes with one more decimal or hex digit.
proof fn lemma_saturate_step(v: int, base: int, d: int)
    requires
        v >= 0,
        base == 10 || base == 16,
        0 <= d < 16,
    ensures
        ({
            let sv = if v > u32::MAX { u32::MAX as int } else { v };
            let m = if sv * base > u32::MAX { u32::MAX as int } else { sv * base };
            if m + d > u32::MAX { u32::MAX as int } else { m + d }
        }) == (if v * base + d > u32::MAX { u32::MAX as int } else { v * base + d }),
{
    if v > u32::MAX {
        assert(v * base >= v) by (nonlinear_arith)
            requires
                v >= 0,
                base >= 1,
        ;
    } else {
        assert(v * base >= 0) by (nonlinear_arith)
            requires
                v >= 0,
                base >= 1,
        ;
    }
}

/// An entity value as a byte: values above 255 are rejected, not truncated.
fn value_to_byte(value: u32) -> (r: Option<u8>)
    ensures
        r == (if value <= 255 { Some(value as u8) } else { None::<u8> }),
{
    if value <= 255 {
        Some(value as u8)
    } else {
        None
    }
}

/// Decode the next byte at `*pos` (one numeric HTML entity or one raw byte)
/// and advance the cursor past it.
pub fn next_html_byte(input: &[u8], pos: &mut usize) -> (r: Option<u8>)
    ensures
        *final(pos) == html_step_end(input@, *old(pos) as int),
        match next_html(input@, *old(pos) as int) {
            None => r is None,
            Some((b, p)) => r == Some(b) && *final(pos) == p,
        },
{
    let n = input.len();
    let p0 = *pos;
    if p0 >= n {
        return None;
    }
    if p0 + 1 < n && input[p0] == 38 && input[p0 + 1] == 35 {
        let mut cursor = p0 + 2;
        let hex = cursor < n && (input[cursor] == 120 || input[cursor] == 88);
        if hex {
            cursor += 1;
        }
        let start = cursor;
        let ghost end = digits_end(input@, start as int, hex);
        let mut value: u32 = 0;
        let base: u32 = if hex { 16 } else { 10 };
        while cursor < n
            invariant
                n == input@.len(),
                start <= cursor <= n,
                base == (if hex { 16u32 } else { 10u32 }),
                digits_end(input@, cursor as int, hex) == end,
                forall|k: int| start <= k < cursor ==> is_entity_digit(#[trigger] input@[k], hex),
                value == (if digits_value(input@, start as int, cursor as int, hex) > u32::MAX {
                    u32::MAX as int
                } else {
                    digits_value(input@, start as int, cursor as int, hex)
                }),
                digits_value(input@, start as int, cursor as int, hex) >= 0,
            ensures
                cursor == end,
                start <= cursor <= n,
                value == (if digits_value(input@, start as int, cursor as int, hex) > u32::MAX {
                    u32::MAX as int
                } else {
                    digits_value(input@, start as int, cursor as int, hex)
                }),
            decreases n - cursor,
        {
            let byte = input[cursor];
            let digit: u32 = if byte >= 48 && byte <= 57 {
                (byte - 48) as u32
            } else if hex && byte >= 97 && byte <= 102 {
                (byte - 97 + 10) as u32
            } else if hex && byte >= 65 && byte <= 70 {
                (byte - 65 + 10) as u32
            } else {
                break;
            };
            proof {
                let dv = digits_value(input@, start as int, cursor as int, hex);
                lemma_saturate_step(dv, base as int, digit as int);
                assert(digits_value(input@, start as int, cursor + 1, hex) == dv * (base as int) + digit);
                assert(dv * (base as int) + digit >= 0) by (nonlinear_arith)
                    requires
                        dv >= 0,
                        base >= 10,
                        digit >= 0,
                ;
            }
            let scaled: u32 = if value > u32::MAX / base {
                u32::MAX
            } else {
                value * base
            };
            proof {
                if value > u32::MAX / base {
                    assert(value * base > u32::MAX) by (nonlinear_arith)
                        requires
                            value > u32::MAX / base,
                            base >= 10,
                    ;
                } else {
                    assert(value * base <= u32::MAX) by (nonlinear_arith)
                        requires
                            value <= u32::MAX / base,
                            base >= 10,
                    ;
                }
            }
            value = scaled.saturating_add(digit);
            cursor += 1;
        }
        if cursor == start {
            return None;
        }
        if cursor < n && input[cursor] == 59 {
            *pos = cursor + 1;
        } else {
            *pos = cursor;
        }
        return value_to_byte(value);
    }
    *pos = p0 + 1;
    Some(input[p0])
}

/// Index of the first printable ASCII byte at or after `i` (`input.len()` when none).
pub fn skip_unprintable_from(input: &[u8], i: usize) -> (r: usize)
    ensures
        r == skip_unprintable(input@, i as int),
        r <= input@.len() || r == i,
{
    let mut j = i;
    while j < input.len() && !(input[j] > 32 && input[j] < 127)
        invariant
            i <= j,
            j <= input@.len() || j == i,
            skip_unprintable(input@, i as int) == skip_unprintable(input@, j as int),
        decreases input@.len() - j,
    {
        j += 1;
    }
    j
}

/// After skipping leading unprintable bytes, the entity-decoded `input`
/// starts with `expected` (ASCII case-insensitive).
pub fn html_entity_starts_with(input: &[u8], expected: &[u8]) -> (r: bool)
    ensures
        r == spec_html_starts_with(input@, expected@),
{
    let mut pos = skip_unprintable_from(input, 0);
    let ghost p0 = pos as int;
    let mut k: usize = 0;
    while k < expected.len()
        invariant
            k <= expected@.len(),
            p0 == skip_unprintable(input@, 0),
            html_prefix_from(input@, p0, expected@, 0) == html_prefix_from(input@, pos as int, expected@, k as int),
        decreases expected@.len() - k,
    {
        match next_html_byte(input, &mut pos) {
            None => {
                return false;
            },
            Some(got) => {
                if !byte_eq_ic(got, expected[k]) {
                    return false;
                }
            },
        }
        k += 1;
    }
    true
}

/// Whether an attribute URL value is an XSS vector.
pub fn is_deny_url(value: &[u8]) -> (r: bool)
    ensures
        r == spec_is_deny_url(value@),
{
    let i = skip_unprintable_from(value, 0);
    let s: &[u8] = &value[i..value.len()];
    let data: &[u8] = &[68u8, 65, 84, 65];
    let view_source: &[u8] = &[86u8, 73, 69, 87, 45, 83, 79, 85, 82, 67, 69];
    let java: &[u8] = &[74u8, 65, 86, 65];
    let vbscript: &[u8] = &[86u8, 66, 83, 67, 82, 73, 80, 84];
    assert(data@ == seq![68u8, 65, 84, 65]);
    assert(view_source@ == seq![86u8, 73, 69, 87, 45, 83, 79, 85, 82, 67, 69]);
    assert(java@ == seq![74u8, 65, 86, 65]);
    assert(vbscript@ == seq![86u8, 66, 83, 67, 82, 73, 80, 84]);
    html_entity_starts_with(s, data) || html_entity_starts_with(s, view_source) || html_entity_starts_with(s, java)
        || html_entity_starts_with(s, vbscript)
}

} // verus!
