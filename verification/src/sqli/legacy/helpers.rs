//! Byte-level helpers of the legacy tokenizer (escaping, whitespace, delimiter sets).
use vstd::prelude::*;
use crate::engine::ascii::{spec_is_alpha, to_upper, upper};
use crate::sqli::legacy::consts::{BYTE_DOUBLE, BYTE_NULL, BYTE_SINGLE, FLAG_QUOTE_DOUBLE, FLAG_QUOTE_SINGLE};

verus! {

/// Whitespace for the SQL tokenizer (including NUL and `0xA0`).
pub open spec fn spec_is_byte_white(b: u8) -> bool {
    b == 32 || b == 9 || b == 10 || b == 11 || b == 12 || b == 13 || b == 160 || b == 0
}

/// Bytes that end a bare word.
pub open spec fn spec_is_word_delim(b: u8) -> bool {
    b == 0 || b == 9 || b == 10 || b == 11 || b == 12 || b == 13 || b == 32 || b == 33 || b == 34 || b == 35 || b == 37 || b == 38 || b == 39 || b == 40 || b == 41 || b == 42 || b == 43 || b == 44 || b == 45 || b == 47 || b == 58 || b == 59 || b == 60 || b == 61 || b == 62 || b == 63 || b == 64 || b == 91 || b == 92 || b == 93 || b == 94 || b == 123 || b == 124 || b == 125 || b == 126 || b == 160
}

/// Bytes that end a variable name.
pub open spec fn spec_is_var_delim(b: u8) -> bool {
    b == 9 || b == 10 || b == 11 || b == 12 || b == 13 || b == 32 || b == 33 || b == 34 || b == 35 || b == 37 || b == 38 || b == 39 || b == 40 || b == 41 || b == 42 || b == 43 || b == 44 || b == 45 || b == 47 || b == 58 || b == 59 || b == 60 || b == 61 || b == 62 || b == 63 || b == 64 || b == 92 || b == 94 || b == 96 || b == 124 || b == 126
}

/// Whitespace for the SQL tokenizer (including NUL and `0xA0`).
pub fn is_byte_white(b: u8) -> (r: bool)
    ensures
        r == spec_is_byte_white(b),
{
    b == 32 || b == 9 || b == 10 || b == 11 || b == 12 || b == 13 || b == 160 || b == 0
}

/// Bytes that end a bare word.
pub fn is_word_delim(b: u8) -> (r: bool)
    ensures
        r == spec_is_word_delim(b),
{
    b == 0 || b == 9 || b == 10 || b == 11 || b == 12 || b == 13 || b == 32 || b == 33 || b == 34 || b == 35 || b == 37 || b == 38 || b == 39 || b == 40 || b == 41 || b == 42 || b == 43 || b == 44 || b == 45 || b == 47 || b == 58 || b == 59 || b == 60 || b == 61 || b == 62 || b == 63 || b == 64 || b == 91 || b == 92 || b == 93 || b == 94 || b == 123 || b == 124 || b == 125 || b == 126 || b == 160
}

/// Bytes that end a variable name.
pub fn is_var_delim(b: u8) -> (r: bool)
    ensures
        r == spec_is_var_delim(b),
{
    b == 9 || b == 10 || b == 11 || b == 12 || b == 13 || b == 32 || b == 33 || b == 34 || b == 35 || b == 37 || b == 38 || b == 39 || b == 40 || b == 41 || b == 42 || b == 43 || b == 44 || b == 45 || b == 47 || b == 58 || b == 59 || b == 60 || b == 61 || b == 62 || b == 63 || b == 64 || b == 92 || b == 94 || b == 96 || b == 124 || b == 126
}

/// The quote byte that a quote-context flag simulates at position 0.
pub open spec fn spec_flag2_delimiter(flags: u32) -> u8 {
    if flags & FLAG_QUOTE_SINGLE != 0 {
        BYTE_SINGLE
    } else if flags & FLAG_QUOTE_DOUBLE != 0 {
        BYTE_DOUBLE
    } else {
        BYTE_NULL
    }
}

/// The quote byte that a quote-context flag simulates at position 0.
pub fn flag2_delimiter(flags: u32) -> (r: u8)
    ensures
        r == spec_flag2_delimiter(flags),
{
    if flags & FLAG_QUOTE_SINGLE != 0 {
        BYTE_SINGLE
    } else if flags & FLAG_QUOTE_DOUBLE != 0 {
        BYTE_DOUBLE
    } else {
        BYTE_NULL
    }
}

/// Number of backslashes that end `s`.
pub open spec fn trailing_backslashes(s: Seq<u8>) -> nat
    decreases s.len(),
{
    if s.len() == 0 || s.last() != 92 {
        0
    } else {
        1 + trailing_backslashes(s.drop_last())
    }
}

/// The byte after `s` is escaped: `s` ends in an odd number of backslashes.
pub fn is_backslash_escaped(s: &[u8]) -> (r: bool)
    ensures
        r == (trailing_backslashes(s@) % 2 == 1),
{
    let mut n: usize = 0;
    let mut i: usize = s.len();
    proof {
        assert(s@.subrange(0, s@.len() as int) =~= s@);
    }
    while i > 0 && s[i - 1] == 92
        invariant
            i <= s@.len(),
            n == s@.len() - i,
            trailing_backslashes(s@) == n + trailing_backslashes(s@.subrange(0, i as int)),
        decreases i,
    {
        proof {
            assert(s@.subrange(0, i as int).drop_last() =~= s@.subrange(0, i - 1));
        }
        n += 1;
        i -= 1;
    }
    proof {
        assert(trailing_backslashes(s@.subrange(0, i as int)) == 0);
    }
    n % 2 == 1
}

/// The delimiter at `s[0]` is doubled (`''` escapes a quote).
pub fn is_double_delimiter_escaped(s: &[u8]) -> (r: bool)
    ensures
        r == (s@.len() >= 2 && s@[1] == s@[0]),
{
    s.len() >= 2 && s[1] == s[0]
}

/// The block comment at `input[pos]` is a `MySQL` `/*!` comment.
pub fn is_mysql_comment(input: &[u8], pos: usize) -> (r: bool)
    ensures
        r == (pos + 2 < input@.len() && input@[pos + 2] == 33),
{
    if pos >= input.len() || input.len() - pos <= 2 {
        return false;
    }
    input[pos + 2] == 33
}

/// Byte classes that the tokenizer scans runs of.
#[derive(Clone, Copy)]
pub enum ByteClass {
    /// `0-9`.
    Digit,
    /// `0-9`, `A-F`, `a-f`.
    HexDigit,
    /// `0` and `1`.
    BinDigit,
    /// `0-9`, `.` and `,` (money amounts).
    MoneyDigit,
    /// ASCII letters.
    Alpha,
    /// Bytes that do not end a bare word.
    WordByte,
    /// Bytes that do not end a variable name.
    VarByte,
}

/// `b` belongs to class `c`.
pub open spec fn in_class(b: u8, c: ByteClass) -> bool {
    match c {
        ByteClass::Digit => 48 <= b <= 57,
        ByteClass::HexDigit => (48 <= b <= 57) || (65 <= b <= 70) || (97 <= b <= 102),
        ByteClass::BinDigit => b == 48 || b == 49,
        ByteClass::MoneyDigit => (48 <= b <= 57) || b == 46 || b == 44,
        ByteClass::Alpha => spec_is_alpha(b),
        ByteClass::WordByte => !spec_is_word_delim(b),
        ByteClass::VarByte => !spec_is_var_delim(b),
    }
}

/// `b` belongs to class `c`.
pub fn byte_in_class(b: u8, c: ByteClass) -> (r: bool)
    ensures
        r == in_class(b, c),
{
    match c {
        ByteClass::Digit => 48 <= b && b <= 57,
        ByteClass::HexDigit => (48 <= b && b <= 57) || (65 <= b && b <= 70) || (97 <= b && b <= 102),
        ByteClass::BinDigit => b == 48 || b == 49,
        ByteClass::MoneyDigit => (48 <= b && b <= 57) || b == 46 || b == 44,
        ByteClass::Alpha => (65 <= b && b <= 90) || (97 <= b && b <= 122),
        ByteClass::WordByte => !is_word_delim(b),
        ByteClass::VarByte => !is_var_delim(b),
    }
}

/// Where the run of class-`c` bytes that starts at `s[from]` ends.
pub open spec fn run_end(s: Seq<u8>, from: int, c: ByteClass) -> int
    decreases s.len() - from,
{
    if 0 <= from < s.len() && in_class(s[from], c) {
        run_end(s, from + 1, c)
    } else {
        from
    }
}

/// A run ends at or after its start, within the input, on a byte outside the class.
pub proof fn lemma_run_end(s: Seq<u8>, from: int, c: ByteClass)
    requires
        0 <= from <= s.len(),
    ensures
        from <= run_end(s, from, c) <= s.len(),
        run_end(s, from, c) < s.len() ==> !in_class(s[run_end(s, from, c)], c),
        forall|k: int| from <= k < run_end(s, from, c) ==> in_class(#[trigger] s[k], c),
    decreases s.len() - from,
{
    if from < s.len() && in_class(s[from], c) {
        lemma_run_end(s, from + 1, c);
    }
}

/// Length of the run of class-`c` bytes that starts at `s[from]`.
pub fn str_len_spn(s: &[u8], from: usize, c: ByteClass) -> (r: usize)
    requires
        from <= s@.len(),
    ensures
        from + r == run_end(s@, from as int, c),
        from + r <= s@.len(),
{
    let mut i: usize = from;
    while i < s.len()
        invariant
            from <= i <= s@.len(),
            run_end(s@, from as int, c) == run_end(s@, i as int, c),
        decreases s.len() - i,
    {
        if !byte_in_class(s[i], c) {
            return i - from;
        }
        i += 1;
    }
    i - from
}

/// Length of the run of bytes from `s[from]` up to the next delimiter (of
/// variable names when `var` is set, of bare words otherwise).
pub fn str_len_cspn(s: &[u8], from: usize, var: bool) -> (r: usize)
    requires
        from <= s@.len(),
    ensures
        from + r == run_end(s@, from as int, if var { ByteClass::VarByte } else { ByteClass::WordByte }),
        from + r <= s@.len(),
{
    if var {
        str_len_spn(s, from, ByteClass::VarByte)
    } else {
        str_len_spn(s, from, ByteClass::WordByte)
    }
}

/// `s` equals `expected_upper` after ASCII uppercasing.
pub open spec fn spec_upper_eq(expected_upper: Seq<u8>, s: Seq<u8>) -> bool {
    expected_upper.len() == s.len() && forall|k: int| 0 <= k < s.len() ==> #[trigger] expected_upper[k] == upper(s[k])
}

/// Case-insensitive comparison: `expected_upper` (already uppercase) vs `s`.
pub fn matches_upper(expected_upper: &[u8], s: &[u8]) -> (r: bool)
    ensures
        r == spec_upper_eq(expected_upper@, s@),
{
    if expected_upper.len() != s.len() {
        return false;
    }
    let mut i: usize = 0;
    while i < s.len()
        invariant
            expected_upper@.len() == s@.len(),
            i <= s@.len(),
            forall|k: int| 0 <= k < i ==> #[trigger] expected_upper@[k] == upper(s@[k]),
        decreases s.len() - i,
    {
        if expected_upper[i] != to_upper(s[i]) {
            return false;
        }
        i += 1;
    }
    true
}

} // verus!
