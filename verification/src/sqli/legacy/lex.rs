//! The legacy tokenizer as a specification: what one parser step reads and
//! produces, stated over the input bytes.
use vstd::prelude::*;
use crate::sqli::legacy::consts::{
    FLAG_SQL_ANSI, FLAG_SQL_MYSQL, TOKEN_SIZE, TT_BACKSLASH, TT_BAREWORD, TT_COLON, TT_COMMENT, TT_DOT, TT_EVIL,
    TT_FUNCTION, TT_NONE, TT_NUMBER, TT_OPERATOR, TT_STRING, TT_UNKNOWN, TT_VARIABLE,
};
use crate::sqli::legacy::data::spec_search_keyword;
use crate::sqli::legacy::helpers::{
    in_class, lemma_run_end, run_end, spec_is_byte_white, spec_is_word_delim, trailing_backslashes, ByteClass,
};
use crate::sqli::legacy::token::cap_len;

verus! {

/// A token as the parsers see it: category, offset, significant value
/// bytes, string delimiters and the `@` count of a variable.
pub struct Tok {
    pub category: u8,
    pub pos: int,
    pub val: Seq<u8>,
    pub count: u8,
    pub str_open: u8,
    pub str_close: u8,
}

/// One parser step: where scanning resumes, the current token afterwards,
/// and how much it adds to the `#` and ANSI `--x` comment statistics.
pub struct Step {
    pub end: int,
    pub tok: Tok,
    pub hash: nat,
    pub ddx: nat,
}

/// The all-zero token.
pub open spec fn empty_tok() -> Tok {
    Tok { category: 0, pos: 0, val: Seq::empty(), count: 0, str_open: 0, str_close: 0 }
}

/// A step that touches no statistic.
pub open spec fn plain(end: int, tok: Tok) -> Step {
    Step { end, tok, hash: 0, ddx: 0 }
}

/// A 16-bit statistic after a saturating addition.
pub open spec fn sat16(x: int) -> int {
    if x > 65535 {
        65535
    } else {
        x
    }
}

/// Saturating twice is saturating once.
pub proof fn lemma_sat16_add(a: int, b: int)
    requires
        0 <= b,
    ensures
        sat16(sat16(a) + b) == sat16(a + b),
{
}

/// `cur` assigned category `cat`, offset `at` and the value `input[at..at + len]`,
/// cut to what the value buffer holds; delimiters and count are kept.
pub open spec fn assigned(cur: Tok, cat: u8, input: Seq<u8>, at: int, len: int) -> Tok {
    Tok { category: cat, pos: at, val: input.subrange(at, at + cap_len(len)), ..cur }
}

/// `t` with the given string delimiters.
pub open spec fn delimited(t: Tok, open: u8, close: u8) -> Tok {
    Tok { str_open: open, str_close: close, ..t }
}

/// The first offset `>= i` at which `needle` occurs in `hay`.
pub open spec fn find_from(hay: Seq<u8>, needle: Seq<u8>, i: int) -> Option<int>
    decreases hay.len() - i,
{
    if i < 0 || i + needle.len() > hay.len() {
        None
    } else if hay.subrange(i, i + needle.len()) == needle {
        Some(i)
    } else {
        proof {
            if needle.len() == 0 {
                assert(hay.subrange(i, i) =~= needle);
            }
        }
        find_from(hay, needle, i + 1)
    }
}

/// The first offset of `needle` in `hay`.
pub open spec fn find_first(hay: Seq<u8>, needle: Seq<u8>) -> Option<int> {
    find_from(hay, needle, 0)
}

/// Where a quoted body `hay` closes, scanning from `cursor`: the first `delim`
/// that is not preceded by an odd run of backslashes and not doubled.
pub open spec fn string_close(hay: Seq<u8>, delim: u8, cursor: int) -> Option<int>
    decreases hay.len() - cursor,
{
    if cursor < 0 || cursor > hay.len() {
        None
    } else {
        match find_from(hay, seq![delim], cursor) {
            None => None,
            Some(abs) => {
                proof {
                    lemma_find_from_found(hay, seq![delim], cursor);
                }
                if trailing_backslashes(hay.subrange(0, abs)) % 2 == 1 {
                    string_close(hay, delim, abs + 1)
                } else if abs + 1 < hay.len() && hay[abs + 1] == delim {
                    string_close(hay, delim, abs + 2)
                } else {
                    Some(abs)
                }
            },
        }
    }
}

/// A quoted string whose body starts at `pos + offset`: the position after it
/// and the string token (opened by `delim` when `offset > 0`).
pub open spec fn string_scan(input: Seq<u8>, pos: int, offset: int, delim: u8, cur: Tok) -> (int, Tok) {
    let start = pos + offset;
    let n = input.len() as int;
    let open: u8 = if offset > 0 {
        delim
    } else {
        0
    };
    let base = Tok { str_open: open, ..cur };
    match string_close(input.subrange(start, n), delim, 0) {
        None => (n, delimited(assigned(base, TT_STRING, input, start, n - start), open, 0)),
        Some(abs) => (start + abs + 1, delimited(assigned(base, TT_STRING, input, start, abs), open, delim)),
    }
}

/// Whitespace: one byte, no token.
pub open spec fn lex_white(pos: int, cur: Tok) -> Step {
    plain(pos + 1, cur)
}

/// A one-byte operator.
pub open spec fn lex_operator1(input: Seq<u8>, pos: int, cur: Tok) -> Step {
    plain(pos + 1, assigned(cur, TT_OPERATOR, input, pos, 1))
}

/// Punctuation whose category is the byte itself.
pub open spec fn lex_byte(input: Seq<u8>, pos: int, cur: Tok) -> Step {
    plain(pos + 1, assigned(cur, input[pos], input, pos, 1))
}

/// An unknown byte.
pub open spec fn lex_other(input: Seq<u8>, pos: int, cur: Tok) -> Step {
    plain(pos + 1, assigned(cur, TT_UNKNOWN, input, pos, 1))
}

/// A comment up to the end of the line (the newline is consumed, not kept).
pub open spec fn lex_eol_comment(input: Seq<u8>, pos: int, cur: Tok) -> Step {
    let n = input.len() as int;
    match find_first(input.subrange(pos, n), seq![10u8]) {
        None => plain(n, assigned(cur, TT_COMMENT, input, pos, n - pos)),
        Some(i) => plain(pos + i + 1, assigned(cur, TT_COMMENT, input, pos, i)),
    }
}

/// `#`: a comment in `MySQL` mode (counted twice), an operator otherwise (counted once).
pub open spec fn lex_hash(input: Seq<u8>, flags: u32, pos: int, cur: Tok) -> Step {
    if flags & FLAG_SQL_MYSQL != 0 {
        Step { hash: 2, ..lex_eol_comment(input, pos, cur) }
    } else {
        Step { end: pos + 1, tok: assigned(cur, TT_OPERATOR, input, pos, 1), hash: 1, ddx: 0 }
    }
}

/// `-`: `-- `, a trailing `--`, or ANSI `--x` start a comment; else an operator.
pub open spec fn lex_dash(input: Seq<u8>, flags: u32, pos: int, cur: Tok) -> Step {
    let n = input.len() as int;
    if pos + 2 < n && input[pos + 1] == 45 && spec_is_byte_white(input[pos + 2]) {
        lex_eol_comment(input, pos, cur)
    } else if pos + 2 == n && input[pos + 1] == 45 {
        lex_eol_comment(input, pos, cur)
    } else if pos + 1 < n && input[pos + 1] == 45 && flags & FLAG_SQL_ANSI != 0 {
        Step { ddx: 1, ..lex_eol_comment(input, pos, cur) }
    } else {
        lex_operator1(input, pos, cur)
    }
}

/// `/`: a block comment (evil when nested or `/*!`), else an operator.
pub open spec fn lex_slash(input: Seq<u8>, pos: int, cur: Tok) -> Step {
    let n = input.len() as int;
    if pos + 1 == n || input[pos + 1] != 42 {
        lex_operator1(input, pos, cur)
    } else {
        let close = find_first(input.subrange(pos + 2, n), seq![42u8, 47]);
        let block_len = match close {
            None => n - pos,
            Some(i) => i + 4,
        };
        let mysql = pos + 2 < n && input[pos + 2] == 33;
        let evil = match close {
            Some(i) => find_first(input.subrange(pos + 2, pos + 3 + i), seq![47u8, 42]) is Some || mysql,
            None => mysql,
        };
        plain(pos + block_len, assigned(cur, if evil { TT_EVIL } else { TT_COMMENT }, input, pos, block_len))
    }
}

/// `\`: `\N` is a number, else a backslash token.
pub open spec fn lex_backslash(input: Seq<u8>, pos: int, cur: Tok) -> Step {
    if pos + 1 < input.len() && input[pos + 1] == 78 {
        plain(pos + 2, assigned(cur, TT_NUMBER, input, pos, 2))
    } else {
        plain(pos + 1, assigned(cur, TT_BACKSLASH, input, pos, 1))
    }
}

/// `<=>`, a two-byte operator of the table, `:`, else a one-byte operator.
pub open spec fn lex_operator2(input: Seq<u8>, pos: int, cur: Tok) -> Step {
    let n = input.len() as int;
    if pos + 1 >= n {
        lex_operator1(input, pos, cur)
    } else if pos + 2 < n && input[pos] == 60 && input[pos + 1] == 61 && input[pos + 2] == 62 {
        plain(pos + 3, assigned(cur, TT_OPERATOR, input, pos, 3))
    } else if spec_search_keyword(input.subrange(pos, pos + 2)) != 0 {
        plain(pos + 2, assigned(cur, spec_search_keyword(input.subrange(pos, pos + 2)), input, pos, 2))
    } else if input[pos] == 58 {
        plain(pos + 1, assigned(cur, TT_COLON, input, pos, 1))
    } else {
        lex_operator1(input, pos, cur)
    }
}

/// A string quoted by the byte at `pos`.
pub open spec fn lex_string(input: Seq<u8>, pos: int, cur: Tok) -> Step {
    let (end, tok) = string_scan(input, pos, 1, input[pos], cur);
    plain(end, tok)
}

/// The first offset `>= i` of the word value `v` that is a `.` or backtick
/// right after a prefix that the table knows as a keyword.
pub open spec fn word_split(v: Seq<u8>, i: int) -> Option<int>
    decreases v.len() - i,
{
    if i < 0 || i >= v.len() {
        None
    } else if (v[i] == 46 || v[i] == 96) && spec_search_keyword(v.subrange(0, i)) != TT_NONE
        && spec_search_keyword(v.subrange(0, i)) != TT_BAREWORD {
        Some(i)
    } else {
        word_split(v, i + 1)
    }
}

/// A bare word up to the next delimiter, looked up in the keyword table; a
/// keyword followed by `.` or a backtick is cut there as a fresh token.
pub open spec fn lex_word(input: Seq<u8>, pos: int, cur: Tok) -> Step {
    let len = run_end(input, pos, ByteClass::WordByte) - pos;
    let v = input.subrange(pos, pos + cap_len(len));
    match word_split(v, 0) {
        Some(i) => plain(
            pos + i,
            assigned(empty_tok(), spec_search_keyword(v.subrange(0, i)), input, pos, i),
        ),
        None => {
            let cat = if len < TOKEN_SIZE {
                if spec_search_keyword(input.subrange(pos, pos + len)) == 0 {
                    TT_BAREWORD
                } else {
                    spec_search_keyword(input.subrange(pos, pos + len))
                }
            } else {
                TT_BAREWORD
            };
            plain(pos + len, assigned(cur, cat, input, pos, len))
        },
    }
}

/// A backtick-quoted name: a function when the table says so, else a bare word.
pub open spec fn lex_tick(input: Seq<u8>, pos: int, cur: Tok) -> Step {
    let (end, t) = string_scan(input, pos, 1, 96, cur);
    let cat = if spec_search_keyword(t.val) == TT_FUNCTION {
        TT_FUNCTION
    } else {
        TT_BAREWORD
    };
    plain(end, Tok { category: cat, ..t })
}

/// `@name` / `@@name`, also with a quoted or backtick name.
pub open spec fn lex_var(input: Seq<u8>, pos: int, cur: Tok) -> Step {
    let n = input.len() as int;
    let two = pos + 1 < n && input[pos + 1] == 64;
    let p = if two {
        pos + 2
    } else {
        pos + 1
    };
    let c1 = Tok { count: if two { 2u8 } else { 1u8 }, ..cur };
    if p < n && input[p] == 96 {
        let st = lex_tick(input, p, c1);
        plain(st.end, Tok { category: TT_VARIABLE, ..st.tok })
    } else if p < n && (input[p] == 39 || input[p] == 34) {
        let st = lex_string(input, p, c1);
        plain(st.end, Tok { category: TT_VARIABLE, ..st.tok })
    } else {
        let len = run_end(input, p, ByteClass::VarByte) - p;
        plain(p + len, assigned(c1, TT_VARIABLE, input, p, len))
    }
}

/// The end of a `d`/`f` type suffix at `q`, when one stands there.
pub open spec fn number_suffix_end(input: Seq<u8>, q: int) -> int {
    let n = input.len() as int;
    if q < n && (input[q] == 100 || input[q] == 68 || input[q] == 102 || input[q] == 70) && (q + 1 == n
        || spec_is_byte_white(input[q + 1]) || input[q + 1] == 59 || input[q + 1] == 117 || input[q + 1] == 85) {
        q + 1
    } else {
        q
    }
}

/// The exponent and suffix of a number whose mantissa ends at `p`; an `e`
/// with no exponent digits leaves no token.
pub open spec fn number_tail(input: Seq<u8>, start: int, p: int, cur: Tok) -> Step {
    let n = input.len() as int;
    if p < n && (input[p] == 69 || input[p] == 101) {
        let q0 = p + 1;
        let q1 = if q0 < n && (input[q0] == 43 || input[q0] == 45) {
            q0 + 1
        } else {
            q0
        };
        let q2 = run_end(input, q1, ByteClass::Digit);
        let f = number_suffix_end(input, q2);
        if q2 > q1 {
            plain(f, assigned(cur, TT_NUMBER, input, start, f - start))
        } else {
            plain(f, cur)
        }
    } else {
        let f = number_suffix_end(input, p);
        plain(f, assigned(cur, TT_NUMBER, input, start, f - start))
    }
}

/// Numbers: `0x..` / `0b..`, decimals, a lone `.`, exponents, type suffixes.
pub open spec fn lex_number(input: Seq<u8>, pos: int, cur: Tok) -> Step {
    let n = input.len() as int;
    if input[pos] == 48 && pos + 1 < n && (input[pos + 1] == 88 || input[pos + 1] == 120 || input[pos + 1] == 66
        || input[pos + 1] == 98) {
        let class = if input[pos + 1] == 88 || input[pos + 1] == 120 {
            ByteClass::HexDigit
        } else {
            ByteClass::BinDigit
        };
        let e = run_end(input, pos + 2, class);
        if e == pos + 2 {
            plain(pos + 2, assigned(cur, TT_BAREWORD, input, pos, 2))
        } else {
            plain(e, assigned(cur, TT_NUMBER, input, pos, e - pos))
        }
    } else {
        let p1 = run_end(input, pos, ByteClass::Digit);
        if p1 < n && input[p1] == 46 {
            let p2 = run_end(input, p1 + 1, ByteClass::Digit);
            if p2 - pos == 1 {
                plain(p2, assigned(cur, TT_DOT, input, pos, 1))
            } else {
                number_tail(input, pos, p2, cur)
            }
        } else {
            number_tail(input, pos, p1, cur)
        }
    }
}

/// A string token of a dollar-quoted body at `body`, closed by `closer` if it occurs.
pub open spec fn dollar_body(input: Seq<u8>, body: int, closer: Seq<u8>, cur: Tok) -> Step {
    let n = input.len() as int;
    match find_first(input.subrange(body, n), closer) {
        None => plain(n, delimited(assigned(cur, TT_STRING, input, body, n - body), 36, 0)),
        Some(i) => plain(
            body + i + closer.len(),
            delimited(assigned(cur, TT_STRING, input, body, i), 36, 36),
        ),
    }
}

/// `$`: money `$1.5`, `$$..$$` and `$tag$..$tag$` strings, `$.` as a word, else a bare `$`.
pub open spec fn lex_money(input: Seq<u8>, pos: int, cur: Tok) -> Step {
    let n = input.len() as int;
    let bare = plain(pos + 1, assigned(cur, TT_BAREWORD, input, pos, 1));
    if pos + 1 == n {
        bare
    } else {
        let dlen = run_end(input, pos + 1, ByteClass::MoneyDigit) - (pos + 1);
        if dlen == 0 {
            if input[pos + 1] == 36 {
                dollar_body(input, pos + 2, seq![36u8, 36], cur)
            } else {
                let xlen = run_end(input, pos + 1, ByteClass::Alpha) - (pos + 1);
                if xlen == 0 || pos + xlen + 1 == n || input[pos + xlen + 1] != 36 {
                    bare
                } else {
                    dollar_body(input, pos + xlen + 2, input.subrange(pos, pos + xlen + 2), cur)
                }
            }
        } else if dlen == 1 && input[pos + 1] == 46 {
            lex_word(input, pos, cur)
        } else {
            plain(pos + dlen + 1, assigned(cur, TT_NUMBER, input, pos, dlen + 1))
        }
    }
}

/// `u&'...'` unicode strings (delimiters shown as `u`), else a word.
pub open spec fn lex_ustring(input: Seq<u8>, pos: int, cur: Tok) -> Step {
    if pos + 2 < input.len() && input[pos + 1] == 38 && input[pos + 2] == 39 {
        let st = lex_string(input, pos + 2, cur);
        let close: u8 = if st.tok.str_close == 39 {
            117
        } else {
            st.tok.str_close
        };
        plain(st.end, delimited(st.tok, 117, close))
    } else {
        lex_word(input, pos, cur)
    }
}

/// The closing byte that pairs with an Oracle q-quote opener.
pub open spec fn q_closer(ch: u8) -> u8 {
    if ch == 40 {
        41
    } else if ch == 91 {
        93
    } else if ch == 123 {
        125
    } else if ch == 60 {
        62
    } else {
        ch
    }
}

/// An Oracle `q'<open>...<close>'` string at `pos0 + offset`, else a word at `pos0`.
pub open spec fn lex_qstring_core(input: Seq<u8>, pos0: int, offset: int, cur: Tok) -> Step {
    let n = input.len() as int;
    let pos = pos0 + offset;
    if pos >= n || (input[pos] != 113 && input[pos] != 81) || pos + 2 >= n || input[pos + 1] != 39
        || input[pos + 2] < 33 {
        lex_word(input, pos0, cur)
    } else {
        let needle = seq![q_closer(input[pos + 2]), 39u8];
        match find_first(input.subrange(pos + 3, n), needle) {
            None => plain(n, delimited(assigned(cur, TT_STRING, input, pos + 3, n - pos - 3), 113, 0)),
            Some(i) => plain(pos + 3 + i + 2, delimited(assigned(cur, TT_STRING, input, pos + 3, i), 113, 113)),
        }
    }
}

/// `E'...'` escaped strings, else a word.
pub open spec fn lex_estring(input: Seq<u8>, pos: int, cur: Tok) -> Step {
    if pos + 2 >= input.len() || input[pos + 1] != 39 {
        lex_word(input, pos, cur)
    } else {
        let (end, tok) = string_scan(input, pos, 2, 39, cur);
        plain(end, tok)
    }
}

/// `n'...'` national strings, `nq'...'`, else a word.
pub open spec fn lex_nqstring(input: Seq<u8>, pos: int, cur: Tok) -> Step {
    if pos + 2 < input.len() && input[pos + 1] == 39 {
        lex_estring(input, pos, cur)
    } else {
        lex_qstring_core(input, pos, 1, cur)
    }
}

/// `X'hex'` / `B'bits'` literals (by `class`), else a word.
pub open spec fn lex_radix_string(input: Seq<u8>, pos: int, class: ByteClass, cur: Tok) -> Step {
    let n = input.len() as int;
    if pos + 2 >= n || input[pos + 1] != 39 {
        lex_word(input, pos, cur)
    } else {
        let e = run_end(input, pos + 2, class);
        if e >= n || input[e] != 39 {
            lex_word(input, pos, cur)
        } else {
            plain(e + 1, assigned(cur, TT_NUMBER, input, pos, e - pos + 1))
        }
    }
}

/// A T-SQL `[name]` up to and including `]`.
pub open spec fn lex_bword(input: Seq<u8>, pos: int, cur: Tok) -> Step {
    let n = input.len() as int;
    match find_first(input.subrange(pos, n), seq![93u8]) {
        None => plain(n, assigned(cur, TT_BAREWORD, input, pos, n - pos)),
        Some(i) => plain(pos + i + 1, assigned(cur, TT_BAREWORD, input, pos, i + 1)),
    }
}

/// One parser step at `pos`, chosen by the byte there.
#[verifier::opaque]
pub open spec fn lex_step(input: Seq<u8>, flags: u32, pos: int, cur: Tok) -> Step {
    let ch = input[pos];
    if ch <= 32 || ch == 127 || ch == 160 {
        lex_white(pos, cur)
    } else if ch == 33 || ch == 38 || ch == 42 || ch == 58 || ch == 60 || ch == 61 || ch == 62 || ch == 124 {
        lex_operator2(input, pos, cur)
    } else if ch == 34 || ch == 39 {
        lex_string(input, pos, cur)
    } else if ch == 35 {
        lex_hash(input, flags, pos, cur)
    } else if ch == 36 {
        lex_money(input, pos, cur)
    } else if ch == 37 || ch == 43 || ch == 94 || ch == 126 {
        lex_operator1(input, pos, cur)
    } else if ch == 40 || ch == 41 || ch == 44 || ch == 59 || ch == 123 || ch == 125 {
        lex_byte(input, pos, cur)
    } else if ch == 45 {
        lex_dash(input, flags, pos, cur)
    } else if ch == 46 || (48 <= ch <= 57) {
        lex_number(input, pos, cur)
    } else if ch == 47 {
        lex_slash(input, pos, cur)
    } else if ch == 63 || ch == 93 {
        lex_other(input, pos, cur)
    } else if ch == 64 {
        lex_var(input, pos, cur)
    } else if ch == 66 || ch == 98 {
        lex_radix_string(input, pos, ByteClass::BinDigit, cur)
    } else if ch == 69 || ch == 101 {
        lex_estring(input, pos, cur)
    } else if ch == 78 || ch == 110 {
        lex_nqstring(input, pos, cur)
    } else if ch == 81 || ch == 113 {
        lex_qstring_core(input, pos, 0, cur)
    } else if ch == 85 || ch == 117 {
        lex_ustring(input, pos, cur)
    } else if ch == 88 || ch == 120 {
        lex_radix_string(input, pos, ByteClass::HexDigit, cur)
    } else if ch == 91 {
        lex_bword(input, pos, cur)
    } else if ch == 92 {
        lex_backslash(input, pos, cur)
    } else if ch == 96 {
        lex_tick(input, pos, cur)
    } else {
        lex_word(input, pos, cur)
    }
}

/// Up to `fuel` steps from `pos` until one leaves a token (or the input
/// ends): where scanning stops, the token then, and the statistics added on
/// the way.
pub open spec fn lex_run(input: Seq<u8>, flags: u32, pos: int, cur: Tok, fuel: nat) -> Step
    decreases fuel,
{
    if fuel == 0 || pos < 0 || pos >= input.len() {
        plain(pos, cur)
    } else {
        let st = lex_step(input, flags, pos, cur);
        if st.tok.category != TT_NONE {
            st
        } else {
            let rest = lex_run(input, flags, st.end, st.tok, (fuel - 1) as nat);
            Step { end: rest.end, tok: rest.tok, hash: st.hash + rest.hash, ddx: st.ddx + rest.ddx }
        }
    }
}

/// The steps from `pos` until one leaves a token (every step consumes at
/// least one byte, so one step per remaining byte is enough).
pub open spec fn lex_next(input: Seq<u8>, flags: u32, pos: int, cur: Tok) -> Step {
    lex_run(input, flags, pos, cur, (input.len() - pos) as nat)
}

/// An occurrence found at `k`, with none in `[i, k)`, is the first from `i`.
pub proof fn lemma_find_first_at(hay: Seq<u8>, needle: Seq<u8>, i: int, k: int)
    requires
        0 <= i <= k,
        k + needle.len() <= hay.len(),
        hay.subrange(k, k + needle.len()) == needle,
        forall|j: int|
            i <= j < k ==> #[trigger] hay.subrange(j, j + needle.len()) != needle,
    ensures
        find_from(hay, needle, i) == Some(k),
    decreases k - i,
{
    if i < k {
        lemma_find_first_at(hay, needle, i + 1, k);
    }
}

/// No occurrence at or after `i` means none is found from `i`.
pub proof fn lemma_find_none(hay: Seq<u8>, needle: Seq<u8>, i: int)
    requires
        0 <= i,
        forall|j: int|
            i <= j && j + needle.len() <= hay.len() ==> #[trigger] hay.subrange(j, j + needle.len()) != needle,
    ensures
        find_from(hay, needle, i) is None,
    decreases hay.len() - i,
{
    if needle.len() == 0 {
        if i <= hay.len() {
            assert(hay.subrange(i, i) =~= needle);
        }
    } else if i + needle.len() <= hay.len() {
        lemma_find_none(hay, needle, i + 1);
    }
}

/// What is found from `i` lies at or after `i`, and occurs there.
pub proof fn lemma_find_from_found(hay: Seq<u8>, needle: Seq<u8>, i: int)
    ensures
        find_from(hay, needle, i) matches Some(k) ==> i <= k && k + needle.len() <= hay.len()
            && hay.subrange(k, k + needle.len()) == needle,
    decreases hay.len() - i,
{
    if needle.len() == 0 {
        if 0 <= i <= hay.len() {
            assert(hay.subrange(i, i) =~= needle);
        }
    } else if i >= 0 && i + needle.len() <= hay.len() && hay.subrange(i, i + needle.len()) != needle {
        lemma_find_from_found(hay, needle, i + 1);
    }
}

/// A single byte occurs at `j` exactly when `hay[j]` is that byte.
pub proof fn lemma_byte_occurs(hay: Seq<u8>, b: u8, j: int)
    requires
        0 <= j < hay.len(),
    ensures
        (hay.subrange(j, j + 1) == seq![b]) == (hay[j] == b),
{
    if hay[j] == b {
        assert(hay.subrange(j, j + 1) =~= seq![b]);
    } else {
        assert(hay.subrange(j, j + 1)[0] != seq![b][0]);
    }
}

/// A closing delimiter is found at or after the cursor, inside the body.
pub proof fn lemma_string_close_after(hay: Seq<u8>, delim: u8, cursor: int)
    ensures
        string_close(hay, delim, cursor) matches Some(a) ==> cursor <= a < hay.len(),
    decreases hay.len() - cursor,
{
    if 0 <= cursor <= hay.len() {
        lemma_find_from_found(hay, seq![delim], cursor);
        if let Some(abs) = find_from(hay, seq![delim], cursor) {
            lemma_string_close_after(hay, delim, abs + 1);
            if abs + 2 <= hay.len() {
                lemma_string_close_after(hay, delim, abs + 2);
            }
        }
    }
}

/// A quoted string whose body starts at or before the end ends past `pos`,
/// within the input.
pub proof fn lemma_string_scan_end(input: Seq<u8>, pos: int, offset: int, delim: u8, cur: Tok)
    requires
        0 <= pos < input.len(),
        0 <= offset,
        pos + offset <= input.len(),
    ensures
        pos < string_scan(input, pos, offset, delim, cur).0 <= input.len(),
{
    lemma_string_close_after(input.subrange(pos + offset, input.len() as int), delim, 0);
}

/// A first occurrence of `needle` in `input[from..]` lies inside it.
pub proof fn lemma_find_first_in(input: Seq<u8>, from: int, needle: Seq<u8>)
    requires
        0 <= from <= input.len(),
    ensures
        find_first(input.subrange(from, input.len() as int), needle) matches Some(i) ==> 0 <= i && from + i
            + needle.len() <= input.len(),
{
    lemma_find_from_found(input.subrange(from, input.len() as int), needle, 0);
}

/// A split found from `i` lies at or after `i`, on a `.` or a backtick.
pub proof fn lemma_word_split_at(v: Seq<u8>, i: int)
    ensures
        word_split(v, i) matches Some(j) ==> i <= j < v.len() && (v[j] == 46 || v[j] == 96),
    decreases v.len() - i,
{
    if 0 <= i < v.len() {
        lemma_word_split_at(v, i + 1);
    }
}

/// A word starting on a byte that is neither a delimiter, `.` nor a backtick
/// ends past `pos`, within the input.
pub proof fn lemma_word_end(input: Seq<u8>, pos: int, cur: Tok)
    requires
        0 <= pos < input.len(),
        !spec_is_word_delim(input[pos]),
        input[pos] != 46,
        input[pos] != 96,
    ensures
        pos < lex_word(input, pos, cur).end <= input.len(),
{
    lemma_run_end(input, pos, ByteClass::WordByte);
    assert(in_class(input[pos], ByteClass::WordByte));
    let len = run_end(input, pos, ByteClass::WordByte) - pos;
    let v = input.subrange(pos, pos + cap_len(len));
    lemma_word_split_at(v, 0);
    assert(v[0] == input[pos]);
}

/// A digit run that starts on a class byte is not empty.
proof fn lemma_run_nonempty(s: Seq<u8>, from: int, c: ByteClass)
    requires
        0 <= from < s.len(),
        in_class(s[from], c),
    ensures
        from < run_end(s, from, c) <= s.len(),
{
    lemma_run_end(s, from, c);
}

/// A number tail ends at or after its mantissa, within the input.
proof fn lemma_number_tail_end(input: Seq<u8>, start: int, p: int, cur: Tok)
    requires
        0 <= p <= input.len(),
    ensures
        p <= number_tail(input, start, p, cur).end <= input.len(),
{
    let n = input.len() as int;
    if p < n && (input[p] == 69 || input[p] == 101) {
        let q0 = p + 1;
        let q1 = if q0 < n && (input[q0] == 43 || input[q0] == 45) {
            q0 + 1
        } else {
            q0
        };
        lemma_run_end(input, q1, ByteClass::Digit);
    }
}

/// A number ends past `pos`, within the input.
proof fn lemma_number_end(input: Seq<u8>, pos: int, cur: Tok)
    requires
        0 <= pos < input.len(),
        input[pos] == 46 || (48 <= input[pos] <= 57),
    ensures
        pos < lex_number(input, pos, cur).end <= input.len(),
{
    let n = input.len() as int;
    if input[pos] == 48 && pos + 1 < n && (input[pos + 1] == 88 || input[pos + 1] == 120 || input[pos + 1] == 66
        || input[pos + 1] == 98) {
        lemma_run_end(input, pos + 2, ByteClass::HexDigit);
        lemma_run_end(input, pos + 2, ByteClass::BinDigit);
    } else {
        lemma_run_end(input, pos, ByteClass::Digit);
        let p1 = run_end(input, pos, ByteClass::Digit);
        if input[pos] != 46 {
            lemma_run_nonempty(input, pos, ByteClass::Digit);
        }
        if p1 < n && input[p1] == 46 {
            lemma_run_end(input, p1 + 1, ByteClass::Digit);
            lemma_number_tail_end(input, pos, run_end(input, p1 + 1, ByteClass::Digit), cur);
        } else {
            lemma_number_tail_end(input, pos, p1, cur);
        }
    }
}

/// A dollar-quoted body at `body` ends at or after it, within the input.
proof fn lemma_dollar_body_end(input: Seq<u8>, body: int, closer: Seq<u8>, cur: Tok)
    requires
        0 <= body <= input.len(),
    ensures
        body <= dollar_body(input, body, closer, cur).end <= input.len(),
{
    lemma_find_first_in(input, body, closer);
}

/// Every parser step at a position inside the input consumes at least one
/// byte and stays within the input.
pub proof fn lemma_lex_step_end(input: Seq<u8>, flags: u32, pos: int, cur: Tok)
    requires
        0 <= pos < input.len(),
    ensures
        pos < lex_step(input, flags, pos, cur).end <= input.len(),
{
    reveal(lex_step);
    let n = input.len() as int;
    let ch = input[pos];
    lemma_find_first_in(input, pos, seq![10u8]);
    lemma_find_first_in(input, pos, seq![93u8]);
    if ch == 34 || ch == 39 {
        lemma_string_scan_end(input, pos, 1, ch, cur);
    } else if ch == 36 {
        if pos + 1 < n {
            let dlen = run_end(input, pos + 1, ByteClass::MoneyDigit) - (pos + 1);
            lemma_run_end(input, pos + 1, ByteClass::MoneyDigit);
            lemma_run_end(input, pos + 1, ByteClass::Alpha);
            let xlen = run_end(input, pos + 1, ByteClass::Alpha) - (pos + 1);
            lemma_dollar_body_end(input, pos + 2, seq![36u8, 36], cur);
            if xlen > 0 && pos + xlen + 1 < n {
                lemma_dollar_body_end(input, pos + xlen + 2, input.subrange(pos, pos + xlen + 2), cur);
            }
            lemma_word_end(input, pos, cur);
        }
    } else if ch == 46 || (48 <= ch <= 57) {
        lemma_number_end(input, pos, cur);
    } else if ch == 47 {
        if pos + 1 < n {
            lemma_find_first_in(input, pos + 2, seq![42u8, 47]);
        }
    } else if ch == 64 {
        let two = pos + 1 < n && input[pos + 1] == 64;
        let p = if two {
            pos + 2
        } else {
            pos + 1
        };
        if p < n {
            lemma_string_scan_end(input, p, 1, 96, Tok { count: if two { 2u8 } else { 1u8 }, ..cur });
            lemma_string_scan_end(input, p, 1, input[p], Tok { count: if two { 2u8 } else { 1u8 }, ..cur });
        }
        lemma_run_end(input, p, ByteClass::VarByte);
    } else if ch == 66 || ch == 98 || ch == 88 || ch == 120 {
        lemma_word_end(input, pos, cur);
        if pos + 2 < n {
            lemma_run_end(input, pos + 2, ByteClass::BinDigit);
            lemma_run_end(input, pos + 2, ByteClass::HexDigit);
        }
    } else if ch == 69 || ch == 101 || ch == 78 || ch == 110 || ch == 81 || ch == 113 {
        lemma_word_end(input, pos, cur);
        if pos + 2 < n {
            lemma_string_scan_end(input, pos, 2, 39, cur);
        }
        if pos + 3 < n {
            lemma_find_first_in(input, pos + 4, seq![q_closer(input[pos + 3]), 39u8]);
        }
        if pos + 2 < n {
            lemma_find_first_in(input, pos + 3, seq![q_closer(input[pos + 2]), 39u8]);
        }
    } else if ch == 85 || ch == 117 {
        lemma_word_end(input, pos, cur);
        if pos + 2 < n {
            lemma_string_scan_end(input, pos + 2, 1, input[pos + 2], cur);
        }
    } else if ch == 96 {
        lemma_string_scan_end(input, pos, 1, 96, cur);
    } else if !(ch <= 32 || ch == 127 || ch == 160 || ch == 33 || ch == 38 || ch == 42 || ch == 58 || ch == 60
        || ch == 61 || ch == 62 || ch == 124 || ch == 35 || ch == 37 || ch == 43 || ch == 94 || ch == 126
        || ch == 40 || ch == 41 || ch == 44 || ch == 59 || ch == 123 || ch == 125 || ch == 45 || ch == 63
        || ch == 93 || ch == 91 || ch == 92) {
        lemma_word_end(input, pos, cur);
    }
}

/// Steps from `pos` inside the input stay within it, and when they leave a
/// token they have consumed at least one byte.
pub proof fn lemma_lex_run_end(input: Seq<u8>, flags: u32, pos: int, cur: Tok, fuel: nat)
    requires
        0 <= pos <= input.len(),
        cur.category == TT_NONE,
    ensures
        pos <= lex_run(input, flags, pos, cur, fuel).end <= input.len(),
        lex_run(input, flags, pos, cur, fuel).tok.category != TT_NONE ==> pos < input.len() && pos < lex_run(
            input,
            flags,
            pos,
            cur,
            fuel,
        ).end,
    decreases fuel,
{
    if fuel > 0 && pos < input.len() {
        lemma_lex_step_end(input, flags, pos, cur);
        let st = lex_step(input, flags, pos, cur);
        if st.tok.category == TT_NONE {
            lemma_lex_run_end(input, flags, st.end, st.tok, (fuel - 1) as nat);
        }
    }
}

} // verus!
