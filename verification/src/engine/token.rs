//! Lightweight token metadata (offset into original input, zero copy).
use vstd::prelude::*;
use crate::engine::ascii::{
    is_alnum, is_alpha, is_digit, is_space, spec_is_alnum, spec_is_alpha, spec_is_digit, spec_is_space,
};
use crate::limits::MAX_TOKEN_SLOTS;

verus! {

/// Token kind for stage-1 construct classification.
#[derive(Clone, Copy, Debug, PartialEq, Eq, Structural)]
pub enum TokenKind {
    /// Unclassified byte run.
    Other,
    /// SQL/XSS keyword (letters).
    Keyword,
    /// Numeric literal.
    Number,
    /// Single-quoted string region.
    StringSingle,
    /// Double-quoted string region.
    StringDouble,
    /// Line or block comment.
    Comment,
    /// Operator / punctuation cluster (`=`, `||`, `&&`, ...).
    Operator,
    /// Statement separator `;`.
    Semicolon,
}

/// One token: indices into the **original** input slice.
#[derive(Clone, Copy, Debug, PartialEq, Eq, Structural)]
pub struct TokenMeta {
    /// Byte offset into original input.
    pub offset: u16,
    /// Length in bytes.
    pub len: u16,
    /// Token classification.
    pub kind: TokenKind,
}

/// Fixed token buffer for one analysis pass.
#[derive(Clone, Copy, Debug)]
pub struct TokenBuf {
    /// Stored tokens.
    pub slots: [TokenMeta; 8],
    /// Number of valid entries in `slots`.
    pub count: u8,
    /// More tokens were present but dropped.
    pub limit_hit: bool,
}

/// Position just past a quoted string whose body starts at `i`
/// (backslash skips the next byte; an unclosed string ends with the input).
pub open spec fn spec_string_end(input: Seq<u8>, i: int, quote: u8) -> int
    decreases input.len() + 1 - i,
{
    if i < 0 {
        i
    } else if i >= input.len() {
        input.len() as int
    } else if input[i] == 92 {
        spec_string_end(input, i + 2, quote)
    } else if input[i] == quote {
        i + 1
    } else {
        spec_string_end(input, i + 1, quote)
    }
}

/// Position just past a block comment whose body starts at `i` (after `/*`).
pub open spec fn spec_block_comment_end(input: Seq<u8>, i: int) -> int
    decreases input.len() - i,
{
    if i < 0 || i + 1 >= input.len() {
        input.len() as int
    } else if input[i] == 42 && input[i + 1] == 47 {
        i + 2
    } else {
        spec_block_comment_end(input, i + 1)
    }
}

/// Position of the first byte in `input[i..]` that is not a digit.
pub open spec fn spec_digits_end(input: Seq<u8>, i: int) -> int
    decreases input.len() - i,
{
    if i < 0 || i >= input.len() || !spec_is_digit(input[i]) {
        i
    } else {
        spec_digits_end(input, i + 1)
    }
}

/// Position of the first byte in `input[i..]` that is not alphanumeric.
pub open spec fn spec_alnum_end(input: Seq<u8>, i: int) -> int
    decreases input.len() - i,
{
    if i < 0 || i >= input.len() || !spec_is_alnum(input[i]) {
        i
    } else {
        spec_alnum_end(input, i + 1)
    }
}

/// End position and kind of the token that starts at the non-space byte `input[s]`.
pub open spec fn spec_token_at(input: Seq<u8>, s: int) -> (int, TokenKind) {
    let b = input[s];
    if b == 39 {
        (spec_string_end(input, s + 1, 39), TokenKind::StringSingle)
    } else if b == 34 {
        (spec_string_end(input, s + 1, 34), TokenKind::StringDouble)
    } else if b == 59 {
        (s + 1, TokenKind::Semicolon)
    } else if (b == 45 && s + 1 < input.len() && input[s + 1] == 45) || b == 35 {
        (input.len() as int, TokenKind::Comment)
    } else if b == 47 && s + 1 < input.len() && input[s + 1] == 42 {
        (spec_block_comment_end(input, s + 2), TokenKind::Comment)
    } else if spec_is_digit(b) {
        (spec_digits_end(input, s), TokenKind::Number)
    } else if spec_is_alpha(b) {
        (spec_alnum_end(input, s), TokenKind::Keyword)
    } else {
        (s + 1, TokenKind::Operator)
    }
}

/// Token `(start, length, kind)` list of `input[i..]`, whitespace skipped.
pub open spec fn spec_tokens_from(input: Seq<u8>, i: int) -> Seq<(int, int, TokenKind)>
    decreases input.len() - i,
{
    if i < 0 || i >= input.len() {
        Seq::empty()
    } else if spec_is_space(input[i]) {
        spec_tokens_from(input, i + 1)
    } else {
        let t = spec_token_at(input, i);
        if t.0 <= i {
            Seq::empty()
        } else if t.0 >= input.len() {
            seq![(i, t.0 - i, t.1)]
        } else {
            seq![(i, t.0 - i, t.1)] + spec_tokens_from(input, t.0)
        }
    }
}

/// `v` stored in a `u16` slot, saturating.
pub open spec fn clamp_u16(v: int) -> u16 {
    if v > u16::MAX {
        u16::MAX
    } else {
        v as u16
    }
}

/// The stored form of a `(start, length, kind)` token.
pub open spec fn meta_of(t: (int, int, TokenKind)) -> TokenMeta {
    TokenMeta { offset: clamp_u16(t.0), len: clamp_u16(t.1), kind: t.2 }
}

/// The stored form of the first tokens of `toks` (as many as fit).
pub open spec fn stored_of(toks: Seq<(int, int, TokenKind)>) -> Seq<TokenMeta> {
    let n = if toks.len() > MAX_TOKEN_SLOTS { MAX_TOKEN_SLOTS as int } else { toks.len() as int };
    toks.subrange(0, n).map_values(|t: (int, int, TokenKind)| meta_of(t))
}

impl TokenBuf {
    /// The tokens in use.
    pub open spec fn stored(self) -> Seq<TokenMeta> {
        self.slots@.subrange(0, self.count as int)
    }

    /// The buffer holds the first tokens of `toks` (as many as fit), and records
    /// whether any had to be dropped.
    pub open spec fn holds(self, toks: Seq<(int, int, TokenKind)>) -> bool {
        &&& self.count as int == if toks.len() > MAX_TOKEN_SLOTS { MAX_TOKEN_SLOTS as int } else {
            toks.len() as int
        }
        &&& self.limit_hit == (toks.len() > MAX_TOKEN_SLOTS)
        &&& forall|j: int| 0 <= j < self.count ==> #[trigger] self.slots@[j] == meta_of(toks[j])
    }

    /// An empty buffer.
    pub fn new() -> (r: Self)
        ensures
            r.holds(Seq::empty()),
    {
        TokenBuf {
            slots: [TokenMeta { offset: 0, len: 0, kind: TokenKind::Other }; 8],
            count: 0,
            limit_hit: false,
        }
    }

    /// Push a token if capacity remains.
    pub fn push(&mut self, offset: u16, len: u16, kind: TokenKind)
        requires
            old(self).count <= 8,
        ensures
            old(self).count < 8 ==> {
                &&& final(self).count == old(self).count + 1
                &&& final(self).slots@ == old(self).slots@.update(
                    old(self).count as int,
                    TokenMeta { offset, len, kind },
                )
                &&& final(self).limit_hit == old(self).limit_hit
            },
            old(self).count >= 8 ==> {
                &&& final(self).count == old(self).count
                &&& final(self).slots == old(self).slots
                &&& final(self).limit_hit
            },
    {
        let idx = self.count as usize;
        if idx >= MAX_TOKEN_SLOTS {
            self.limit_hit = true;
            return;
        }
        self.slots[idx] = TokenMeta { offset, len, kind };
        self.count = self.count + 1;
    }
}

/// Advance past a quoted string; `i` is at the opening quote.
pub fn scan_string(input: &[u8], i: usize, quote: u8) -> (r: usize)
    requires
        i < input@.len(),
        input@.len() < usize::MAX,
    ensures
        r == spec_string_end(input@, i + 1, quote),
        i < r <= input@.len(),
{
    proof {
        lemma_string_end_ge(input@, i + 1, quote);
    }
    let mut j = i + 1;
    while j < input.len()
        invariant
            spec_string_end(input@, j as int, quote) == spec_string_end(input@, i + 1, quote),
            i < j <= input@.len() + 1,
            input@.len() < usize::MAX,
        decreases input.len() + 1 - j,
    {
        let b = input[j];
        if b == 92 {
            j = j + 2;
            continue;
        }
        if b == quote {
            return j + 1;
        }
        j += 1;
    }
    if j > input.len() {
        input.len()
    } else {
        j
    }
}

/// Advance past a block comment; `i` is at the opening `/`.
pub fn scan_block_comment(input: &[u8], i: usize) -> (r: usize)
    requires
        i + 1 < input@.len(),
    ensures
        r == spec_block_comment_end(input@, i + 2),
        i < r <= input@.len(),
{
    let n = input.len();
    proof {
        lemma_block_end_ge(input@, i + 2);
    }
    let mut j = i + 2;
    while j < input.len() && j + 1 < input.len()
        invariant
            spec_block_comment_end(input@, j as int) == spec_block_comment_end(input@, i + 2),
            i + 2 <= j,
        decreases input.len() - j,
    {
        if input[j] == 42 && input[j + 1] == 47 {
            return j + 2;
        }
        j += 1;
    }
    input.len()
}

/// The `u16` slot value of a position, saturating.
fn to_u16_sat(v: usize) -> (r: u16)
    ensures
        r == clamp_u16(v as int),
{
    if v > 65535 {
        65535
    } else {
        v as u16
    }
}

/// Tokenize `original` for construct heuristics (offsets index `original`).
pub fn tokenize(original: &[u8]) -> (r: TokenBuf)
    requires
        original@.len() < usize::MAX,
    ensures
        r.holds(spec_tokens_from(original@, 0)),
        r.count <= 8,
        r.stored() == stored_of(spec_tokens_from(original@, 0)),
{
    let mut buf = TokenBuf::new();
    let ghost mut seen: Seq<(int, int, TokenKind)> = Seq::empty();
    let mut i: usize = 0;
    while i < original.len()
        invariant
            i <= original.len() + 1,
            original@.len() < usize::MAX,
            buf.holds(seen),
            buf.count <= 8,
            spec_tokens_from(original@, 0) == seen + spec_tokens_from(original@, i as int),
        decreases original.len() + 1 - i,
    {
        let b = original[i];
        if is_space(b) {
            proof {
                assert(spec_tokens_from(original@, i as int) == spec_tokens_from(original@, i + 1));
            }
            i += 1;
            continue;
        }
        let start = i;
        let kind;
        if b == 39 {
            i = scan_string(original, i, 39);
            kind = TokenKind::StringSingle;
        } else if b == 34 {
            i = scan_string(original, i, 34);
            kind = TokenKind::StringDouble;
        } else if b == 59 {
            i += 1;
            kind = TokenKind::Semicolon;
        } else if (b == 45 && i + 1 < original.len() && original[i + 1] == 45) || b == 35 {
            i = original.len();
            kind = TokenKind::Comment;
        } else if b == 47 && i + 1 < original.len() && original[i + 1] == 42 {
            i = scan_block_comment(original, i);
            kind = TokenKind::Comment;
        } else if is_digit(b) {
            while i < original.len() && is_digit(original[i])
                invariant
                    start <= i <= original.len(),
                    spec_digits_end(original@, i as int) == spec_digits_end(original@, start as int),
                decreases original.len() - i,
            {
                i += 1;
            }
            kind = TokenKind::Number;
        } else if is_alpha(b) {
            while i < original.len() && is_alnum(original[i])
                invariant
                    start <= i <= original.len(),
                    spec_alnum_end(original@, i as int) == spec_alnum_end(original@, start as int),
                decreases original.len() - i,
            {
                i += 1;
            }
            kind = TokenKind::Keyword;
        } else {
            i += 1;
            kind = TokenKind::Operator;
        }
        proof {
            lemma_token_advances(original@, start as int);
            assert(spec_token_at(original@, start as int) == (i as int, kind));
        }
        let len = i - start;
        let ghost tok = (start as int, len as int, kind);
        buf.push(to_u16_sat(start), to_u16_sat(len), kind);
        proof {
            let rest = spec_tokens_from(original@, i as int);
            if i >= original.len() {
                assert(rest.len() == 0);
                assert(rest =~= Seq::<(int, int, TokenKind)>::empty());
            }
            assert(spec_tokens_from(original@, start as int) == seq![tok] + rest);
            assert(seen + spec_tokens_from(original@, start as int) =~= seen.push(tok) + rest);
            seen = seen.push(tok);
            assert(buf.holds(seen)) by {
                assert forall|j: int| 0 <= j < buf.count implies #[trigger] buf.slots@[j] == meta_of(seen[j]) by {
                }
            }
        }
    }
    proof {
        assert(spec_tokens_from(original@, i as int).len() == 0);
        assert(seen + spec_tokens_from(original@, i as int) =~= seen);
        assert(buf.stored() =~= stored_of(seen));
    }
    buf
}

/// A token that starts at a non-space byte always advances the position.
pub proof fn lemma_token_advances(input: Seq<u8>, s: int)
    requires
        0 <= s < input.len(),
    ensures
        spec_token_at(input, s).0 > s,
{
    let b = input[s];
    if b == 39 || b == 34 {
        lemma_string_end_ge(input, s + 1, b);
    } else if b == 47 && s + 1 < input.len() && input[s + 1] == 42 {
        lemma_block_end_ge(input, s + 2);
    } else if spec_is_digit(b) {
        assert(spec_digits_end(input, s) == spec_digits_end(input, s + 1));
        lemma_digits_end_ge(input, s + 1);
    } else if spec_is_alpha(b) {
        assert(spec_alnum_end(input, s) == spec_alnum_end(input, s + 1));
        lemma_alnum_end_ge(input, s + 1);
    }
}

proof fn lemma_string_end_ge(input: Seq<u8>, i: int, q: u8)
    requires
        0 <= i <= input.len(),
    ensures
        i <= spec_string_end(input, i, q) <= input.len(),
    decreases input.len() + 1 - i,
{
    if i >= input.len() {
    } else if input[i] == 92 {
        if i + 2 <= input.len() {
            lemma_string_end_ge(input, i + 2, q);
        } else {
            assert(spec_string_end(input, i + 2, q) == input.len());
        }
    } else if input[i] == q {
    } else {
        lemma_string_end_ge(input, i + 1, q);
    }
}

proof fn lemma_block_end_ge(input: Seq<u8>, i: int)
    requires
        0 <= i <= input.len(),
    ensures
        spec_block_comment_end(input, i) >= i,
        spec_block_comment_end(input, i) <= input.len(),
    decreases input.len() - i,
{
    if i + 1 >= input.len() {
    } else if input[i] == 42 && input[i + 1] == 47 {
    } else {
        lemma_block_end_ge(input, i + 1);
    }
}

proof fn lemma_digits_end_ge(input: Seq<u8>, i: int)
    requires
        0 <= i,
    ensures
        spec_digits_end(input, i) >= i,
        i <= input.len() ==> spec_digits_end(input, i) <= input.len(),
    decreases input.len() - i,
{
    if i >= input.len() || !spec_is_digit(input[i]) {
    } else {
        lemma_digits_end_ge(input, i + 1);
    }
}

proof fn lemma_alnum_end_ge(input: Seq<u8>, i: int)
    requires
        0 <= i,
    ensures
        spec_alnum_end(input, i) >= i,
        i <= input.len() ==> spec_alnum_end(input, i) <= input.len(),
    decreases input.len() - i,
{
    if i >= input.len() || !spec_is_alnum(input[i]) {
    } else {
        lemma_alnum_end_ge(input, i + 1);
    }
}

/// A token starts inside `input`, is not empty, and ends within it.
pub open spec fn token_bounded(input: Seq<u8>, t: (int, int, TokenKind)) -> bool {
    &&& 0 <= t.0 < input.len()
    &&& t.1 > 0
    &&& t.0 + t.1 <= input.len()
}

/// The token that starts at a non-space byte `input[s]` is bounded.
proof fn lemma_token_at_bounded(input: Seq<u8>, s: int)
    requires
        0 <= s < input.len(),
    ensures
        token_bounded(input, (s, spec_token_at(input, s).0 - s, spec_token_at(input, s).1)),
{
    lemma_token_advances(input, s);
    let b = input[s];
    if b == 39 || b == 34 {
        lemma_string_end_ge(input, s + 1, b);
    } else if b == 47 && s + 1 < input.len() && input[s + 1] == 42 {
        lemma_block_end_ge(input, s + 2);
    } else if spec_is_digit(b) {
        lemma_digits_end_ge(input, s);
    } else if spec_is_alpha(b) {
        lemma_alnum_end_ge(input, s);
    }
}

/// The tokens of `input[i..]` are bounded and start at or after `i`.
proof fn lemma_tokens_bounded_from(input: Seq<u8>, i: int)
    requires
        0 <= i,
    ensures
        forall|k: int|
            0 <= k < spec_tokens_from(input, i).len() ==> token_bounded(input, #[trigger] spec_tokens_from(input, i)[k])
                && spec_tokens_from(input, i)[k].0 >= i,
    decreases input.len() - i,
{
    if 0 <= i < input.len() {
        if spec_is_space(input[i]) {
            lemma_tokens_bounded_from(input, i + 1);
        } else {
            let t = spec_token_at(input, i);
            lemma_token_at_bounded(input, i);
            lemma_token_advances(input, i);
            if t.0 < input.len() {
                lemma_tokens_bounded_from(input, t.0);
                let head = seq![(i, t.0 - i, t.1)];
                let rest = spec_tokens_from(input, t.0);
                assert forall|k: int| 0 <= k < spec_tokens_from(input, i).len() implies token_bounded(
                    input,
                    #[trigger] spec_tokens_from(input, i)[k],
                ) && spec_tokens_from(input, i)[k].0 >= i by {
                    if k > 0 {
                        assert(spec_tokens_from(input, i)[k] == rest[k - 1]);
                    }
                }
            } else {
                assert(spec_tokens_from(input, i) == seq![(i, t.0 - i, t.1)]);
                assert(spec_tokens_from(input, i)[0] == (i, t.0 - i, t.1));
            }
        }
    }
}

/// Every stage-1 token starts inside the input, is not empty, and ends within
/// it: its offset and length index the input.
pub proof fn law_tokens_within_input(input: Seq<u8>)
    ensures
        forall|k: int|
            0 <= k < spec_tokens_from(input, 0).len() ==> token_bounded(input, #[trigger] spec_tokens_from(input, 0)[k]),
{
    lemma_tokens_bounded_from(input, 0);
}

} // verus!
