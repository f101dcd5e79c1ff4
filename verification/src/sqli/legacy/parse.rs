//! Per-byte token parsers of the legacy tokenizer and their dispatch; each
//! parser does what the step of the same name in `lex` says.
use vstd::prelude::*;
use crate::engine::ascii::spec_is_alpha;
use crate::engine::bytes::memchr;
use crate::sqli::legacy::consts::{
    BYTE_DOUBLE, BYTE_NULL, BYTE_SINGLE, BYTE_TICK, FLAG_SQL_ANSI, FLAG_SQL_MYSQL, LOOKUP_OPERATOR, LOOKUP_WORD,
    TOKEN_SIZE, TT_BACKSLASH, TT_BAREWORD, TT_COLON, TT_COMMENT, TT_DOT, TT_EVIL, TT_FUNCTION, TT_NONE, TT_NUMBER,
    TT_OPERATOR, TT_STRING, TT_UNKNOWN, TT_VARIABLE,
};
use crate::sqli::legacy::data::{lemma_no_empty_key, lookup_word};
use crate::sqli::legacy::helpers::{
    is_byte_white, is_mysql_comment, lemma_run_end, run_end, spec_is_word_delim, str_len_cspn, str_len_spn,
    ByteClass,
};
use crate::sqli::legacy::lex::{
    assigned, delimited, find_first, find_from, lemma_byte_occurs, lemma_find_first_at,
    lemma_find_none, lex_backslash, lex_bword, lex_byte, lex_dash, lex_eol_comment, lex_estring, lex_hash,
    lex_money, lex_nqstring, lex_number, lex_operator1, lex_operator2, lex_other, lex_qstring_core,
    lex_radix_string, lex_slash, lex_step, lex_string, lex_tick, lex_ustring, lex_var, lex_white, lex_word,
    dollar_body, number_tail, sat16, word_split, Step, Tok,
};
use crate::sqli::legacy::state::SqliState;
use crate::sqli::legacy::token::{cap_len, SqliToken};

verus! {

/// A parser ran on `old` and produced `new`, returning position `r`: it made
/// progress, stayed in bounds, and touched only the current token slot.
pub open spec fn parsed<'a>(old: &SqliState<'a>, new: &SqliState<'a>, r: usize) -> bool {
    &&& new.wf()
    &&& new.same_frame(old)
    &&& old.pos < r <= new.length
    &&& new.pos >= old.pos
    &&& new.pos <= r
    &&& forall|i: int|
        0 <= i < 8 && i != old.current_idx ==> new.token_vec@[i] == old.token_vec@[i]
    &&& new.fingerprint == old.fingerprint
    &&& new.fingerprint_len == old.fingerprint_len
    &&& new.stats_tokens == old.stats_tokens
    &&& new.stats_folds == old.stats_folds
}

/// A parser ran as the step `st` says: it returned where `st` ends, left
/// `st`'s token in the current slot and added `st`'s comment statistics.
pub open spec fn stepped<'a>(old: &SqliState<'a>, new: &SqliState<'a>, r: usize, st: Step) -> bool {
    &&& parsed(old, new, r)
    &&& r == st.end
    &&& new.spec_current().model() == st.tok
    &&& new.stats_comment_hash == sat16(old.stats_comment_hash + st.hash)
    &&& new.stats_comment_ddx == sat16(old.stats_comment_ddx + st.ddx)
    &&& old.spec_current().canonical() ==> new.spec_current().canonical()
}

/// Only the current token changed (position, frame and statistics kept).
pub open spec fn kept<'a>(old: &SqliState<'a>, new: &SqliState<'a>) -> bool {
    &&& new.wf()
    &&& new.same_frame(old)
    &&& new.pos == old.pos
    &&& forall|i: int|
        0 <= i < 8 && i != old.current_idx ==> new.token_vec@[i] == old.token_vec@[i]
    &&& new.fingerprint == old.fingerprint
    &&& new.fingerprint_len == old.fingerprint_len
    &&& new.stats_tokens == old.stats_tokens
    &&& new.stats_folds == old.stats_folds
    &&& new.stats_comment_ddx == old.stats_comment_ddx
    &&& new.stats_comment_hash == old.stats_comment_hash
}

/// The current token of `s`, as the specification sees it.
pub open spec fn cur<'a>(s: &SqliState<'a>) -> Tok {
    s.spec_current().model()
}

/// Dispatch on `input[pos]` to the right parser; returns the new position.
pub fn dispatch(s: &mut SqliState) -> (r: usize)
    requires
        old(s).wf(),
        old(s).pos < old(s).length,
    ensures
        stepped(old(s), final(s), r, lex_step(old(s).input@, old(s).flags, old(s).pos as int, cur(old(s)))),
{
    proof {
        reveal(lex_step);
    }
    let ch = s.input[s.pos];
    if ch <= 32 || ch == 127 || ch == 160 {
        parse_white(s)
    } else if ch == 33 || ch == 38 || ch == 42 || ch == 58 || ch == 60 || ch == 61 || ch == 62 || ch == 124 {
        parse_operator2(s)
    } else if ch == 34 || ch == 39 {
        parse_string(s)
    } else if ch == 35 {
        parse_hash(s)
    } else if ch == 36 {
        parse_money(s)
    } else if ch == 37 || ch == 43 || ch == 94 || ch == 126 {
        parse_operator1(s)
    } else if ch == 40 || ch == 41 || ch == 44 || ch == 59 || ch == 123 || ch == 125 {
        parse_byte(s)
    } else if ch == 45 {
        parse_dash(s)
    } else if ch == 46 || (ch >= 48 && ch <= 57) {
        parse_number(s)
    } else if ch == 47 {
        parse_slash(s)
    } else if ch == 63 || ch == 93 {
        parse_other(s)
    } else if ch == 64 {
        parse_var(s)
    } else if ch == 66 || ch == 98 {
        parse_bstring(s)
    } else if ch == 69 || ch == 101 {
        parse_estring(s)
    } else if ch == 78 || ch == 110 {
        parse_nqstring(s)
    } else if ch == 81 || ch == 113 {
        parse_qstring(s)
    } else if ch == 85 || ch == 117 {
        parse_ustring(s)
    } else if ch == 88 || ch == 120 {
        parse_xstring(s)
    } else if ch == 91 {
        parse_bword(s)
    } else if ch == 92 {
        parse_backslash(s)
    } else if ch == 96 {
        parse_tick(s)
    } else {
        parse_word(s)
    }
}

/// `input[from..]` (empty when `from` is past the end).
fn inp<'a>(s: &SqliState<'a>, from: usize) -> (r: &'a [u8])
    requires
        s.wf(),
    ensures
        from <= s.length ==> r@ == s.input@.subrange(from as int, s.length as int),
        from > s.length ==> r@.len() == 0,
{
    if from <= s.length {
        &s.input[from..s.length]
    } else {
        &s.input[0..0]
    }
}

/// `input[from..to]` (empty when the range is out of bounds).
fn inp2<'a>(s: &SqliState<'a>, from: usize, to: usize) -> (r: &'a [u8])
    requires
        s.wf(),
    ensures
        from <= to <= s.length ==> r@ == s.input@.subrange(from as int, to as int),
        !(from <= to <= s.length) ==> r@.len() == 0,
{
    if from <= to && to <= s.length {
        &s.input[from..to]
    } else {
        &s.input[0..0]
    }
}

/// Assign the current token: category `token_type`, offset `at`, value `input[at..at + len]`.
fn emit(s: &mut SqliState, token_type: u8, at: usize, len: usize)
    requires
        old(s).wf(),
        at + len <= old(s).length,
    ensures
        kept(old(s), final(s)),
        cur(final(s)) == assigned(cur(old(s)), token_type, old(s).input@, at as int, len as int),
        final(s).spec_current().canonical(),
{
    let v = inp(s, at);
    let mut t = s.current();
    t.assign(token_type, at, len, v);
    proof {
        let c = cap_len(len as int);
        assert(v@.subrange(0, c) =~= s.input@.subrange(at as int, at + c));
    }
    s.set_current(t);
}

/// Set the string delimiters of the current token.
fn set_delims(s: &mut SqliState, open: u8, close: u8)
    requires
        old(s).wf(),
    ensures
        kept(old(s), final(s)),
        cur(final(s)) == delimited(cur(old(s)), open, close),
        old(s).spec_current().canonical() ==> final(s).spec_current().canonical(),
{
    let mut t = s.current();
    t.str_open = open;
    t.str_close = close;
    s.set_current(t);
}

/// Set the category of the current token.
fn set_category(s: &mut SqliState, cat: u8)
    requires
        old(s).wf(),
    ensures
        kept(old(s), final(s)),
        cur(final(s)) == (Tok { category: cat, ..cur(old(s)) }),
        old(s).spec_current().canonical() ==> final(s).spec_current().canonical(),
{
    let mut t = s.current();
    t.category = cat;
    s.set_current(t);
}

/// A single byte `b` does not occur in `hay`, by `memchr`'s report.
proof fn lemma_byte_absent(hay: Seq<u8>, b: u8)
    requires
        !hay.contains(b),
    ensures
        find_first(hay, seq![b]) is None,
{
    assert forall|j: int| 0 <= j && j + 1 <= hay.len() implies #[trigger] hay.subrange(j, j + 1) != seq![b] by {
        lemma_byte_occurs(hay, b, j);
        if hay[j] == b {
            assert(hay.contains(b));
        }
    }
    lemma_find_none(hay, seq![b], 0);
}

/// The first `b` in `hay` is at `i`, by `memchr`'s report.
proof fn lemma_byte_first(hay: Seq<u8>, b: u8, i: int)
    requires
        0 <= i < hay.len(),
        hay[i] == b,
        forall|j: int| 0 <= j < i ==> hay[j] != b,
    ensures
        find_first(hay, seq![b]) == Some(i),
{
    lemma_byte_occurs(hay, b, i);
    assert forall|j: int| 0 <= j < i implies #[trigger] hay.subrange(j, j + seq![b].len()) != seq![b] by {
        lemma_byte_occurs(hay, b, j);
    }
    lemma_find_first_at(hay, seq![b], 0, i);
}

/// Whitespace: advance one byte, no token.
fn parse_white(s: &mut SqliState) -> (r: usize)
    requires
        old(s).wf(),
        old(s).pos < old(s).length,
    ensures
        stepped(old(s), final(s), r, lex_white(old(s).pos as int, cur(old(s)))),
{
    s.pos + 1
}

/// One-byte operator.
fn parse_operator1(s: &mut SqliState) -> (r: usize)
    requires
        old(s).wf(),
        old(s).pos < old(s).length,
    ensures
        stepped(old(s), final(s), r, lex_operator1(old(s).input@, old(s).pos as int, cur(old(s)))),
{
    let pos = s.pos;
    emit(s, TT_OPERATOR, pos, 1);
    pos + 1
}

/// Punctuation: the token type is the byte itself.
fn parse_byte(s: &mut SqliState) -> (r: usize)
    requires
        old(s).wf(),
        old(s).pos < old(s).length,
    ensures
        stepped(old(s), final(s), r, lex_byte(old(s).input@, old(s).pos as int, cur(old(s)))),
{
    let pos = s.pos;
    let ch = s.input[pos];
    emit(s, ch, pos, 1);
    pos + 1
}

/// Unknown byte (`?`, `]`).
fn parse_other(s: &mut SqliState) -> (r: usize)
    requires
        old(s).wf(),
        old(s).pos < old(s).length,
    ensures
        stepped(old(s), final(s), r, lex_other(old(s).input@, old(s).pos as int, cur(old(s)))),
{
    let pos = s.pos;
    emit(s, TT_UNKNOWN, pos, 1);
    pos + 1
}

/// `#`: an end-of-line comment in `MySQL` mode, an operator otherwise.
fn parse_hash(s: &mut SqliState) -> (r: usize)
    requires
        old(s).wf(),
        old(s).pos < old(s).length,
    ensures
        stepped(old(s), final(s), r, lex_hash(old(s).input@, old(s).flags, old(s).pos as int, cur(old(s)))),
{
    s.stats_comment_hash = s.stats_comment_hash.saturating_add(1);
    if (s.flags & FLAG_SQL_MYSQL) != 0 {
        s.stats_comment_hash = s.stats_comment_hash.saturating_add(1);
        return parse_eol_comment(s);
    }
    let pos = s.pos;
    emit(s, TT_OPERATOR, pos, 1);
    pos + 1
}

/// `-`: an end-of-line comment (`-- `, trailing `--`, or ANSI `--x`), else an operator.
fn parse_dash(s: &mut SqliState) -> (r: usize)
    requires
        old(s).wf(),
        old(s).pos < old(s).length,
    ensures
        stepped(old(s), final(s), r, lex_dash(old(s).input@, old(s).flags, old(s).pos as int, cur(old(s)))),
{
    let pos = s.pos;
    let input = s.input;
    let length = s.length;
    let flags = s.flags;
    if pos + 2 < length && input[pos + 1] == 45 && is_byte_white(input[pos + 2]) {
        return parse_eol_comment(s);
    }
    if pos + 2 == length && input[pos + 1] == 45 {
        return parse_eol_comment(s);
    }
    if pos + 1 < length && input[pos + 1] == 45 && (flags & FLAG_SQL_ANSI) != 0 {
        s.stats_comment_ddx = s.stats_comment_ddx.saturating_add(1);
        return parse_eol_comment(s);
    }
    emit(s, TT_OPERATOR, pos, 1);
    pos + 1
}

/// Position of the first occurrence of `needle` in `haystack` (an empty needle is at 0).
fn find_subslice(haystack: &[u8], needle: &[u8]) -> (r: Option<usize>)
    ensures
        r matches Some(i) ==> find_first(haystack@, needle@) == Some(i as int),
        r is None ==> find_first(haystack@, needle@) is None,
        r matches Some(i) ==> i + needle@.len() <= haystack@.len(),
{
    if needle.len() == 0 {
        proof {
            assert(haystack@.subrange(0, 0) =~= needle@);
        }
        return Some(0);
    }
    if needle.len() > haystack.len() {
        return None;
    }
    let last = haystack.len() - needle.len();
    let mut i: usize = 0;
    while i <= last
        invariant
            needle@.len() <= haystack@.len(),
            last == haystack@.len() - needle@.len(),
            last + needle.len() == haystack.len(),
            i <= last + 1,
            find_first(haystack@, needle@) == find_from(haystack@, needle@, i as int),
        decreases last + 1 - i,
    {
        let w: &[u8] = &haystack[i..i + needle.len()];
        assert(w@ == haystack@.subrange(i as int, i + needle@.len()));
        if crate::sqli::legacy::data::bytes_eq(w, needle) {
            return Some(i);
        }
        if i == last {
            assert(find_from(haystack@, needle@, i + 1) is None);
            return None;
        }
        i += 1;
    }
    None
}

/// `/`: a block comment (`X` when nested or `/*!`), else an operator.
fn parse_slash(s: &mut SqliState) -> (r: usize)
    requires
        old(s).wf(),
        old(s).pos < old(s).length,
    ensures
        stepped(old(s), final(s), r, lex_slash(old(s).input@, old(s).pos as int, cur(old(s)))),
{
    let pos = s.pos;
    let length = s.length;
    let input = s.input;
    if pos + 1 == length || input[pos + 1] != 42 {
        return parse_operator1(s);
    }
    let after_open = inp(s, pos + 2);
    let close_idx = find_subslice(after_open, &[42u8, 47]);
    proof {
        assert((&[42u8, 47])@ =~= seq![42u8, 47]);
    }
    let block_len = match close_idx {
        None => length - pos,
        Some(i) => 2 + i + 2,
    };
    let mut ctype = TT_COMMENT;
    match close_idx {
        Some(i) => {
            let inner = inp2(s, pos + 2, pos + 2 + i + 1);
            let nested = find_subslice(inner, &[47u8, 42]);
            proof {
                assert((&[47u8, 42])@ =~= seq![47u8, 42]);
            }
            if nested.is_some() || is_mysql_comment(input, pos) {
                ctype = TT_EVIL;
            }
        },
        None => {
            if is_mysql_comment(input, pos) {
                ctype = TT_EVIL;
            }
        },
    }
    emit(s, ctype, pos, block_len);
    pos + block_len
}

/// `\`: `\N` is a number, otherwise a backslash token.
fn parse_backslash(s: &mut SqliState) -> (r: usize)
    requires
        old(s).wf(),
        old(s).pos < old(s).length,
    ensures
        stepped(old(s), final(s), r, lex_backslash(old(s).input@, old(s).pos as int, cur(old(s)))),
{
    let pos = s.pos;
    if pos + 1 < s.length && s.input[pos + 1] == 78 {
        emit(s, TT_NUMBER, pos, 2);
        return pos + 2;
    }
    emit(s, TT_BACKSLASH, pos, 1);
    pos + 1
}

/// Two-byte operators (table lookup), `<=>`, `:`, else a one-byte operator.
fn parse_operator2(s: &mut SqliState) -> (r: usize)
    requires
        old(s).wf(),
        old(s).pos < old(s).length,
    ensures
        stepped(old(s), final(s), r, lex_operator2(old(s).input@, old(s).pos as int, cur(old(s)))),
{
    let pos = s.pos;
    if pos + 1 >= s.length {
        return parse_operator1(s);
    }
    let input = s.input;
    if pos + 2 < s.length && input[pos] == 60 && input[pos + 1] == 61 && input[pos + 2] == 62 {
        emit(s, TT_OPERATOR, pos, 3);
        return pos + 3;
    }
    let two = inp2(s, pos, pos + 2);
    let ch = lookup_word(LOOKUP_OPERATOR, two);
    if ch != BYTE_NULL {
        emit(s, ch, pos, 2);
        return pos + 2;
    }
    if input[pos] == 58 {
        emit(s, TT_COLON, pos, 1);
        return pos + 1;
    }
    parse_operator1(s)
}

/// Quoted string (`'` or `"`).
fn parse_string(s: &mut SqliState) -> (r: usize)
    requires
        old(s).wf(),
        old(s).pos < old(s).length,
    ensures
        stepped(old(s), final(s), r, lex_string(old(s).input@, old(s).pos as int, cur(old(s)))),
{
    let delim = s.input[s.pos];
    let input = s.input;
    let length = s.length;
    let pos = s.pos;
    let mut t = s.current();
    let r = t.parse_string_core(input, length, pos, 1, delim);
    s.set_current(t);
    r
}

/// Comment up to the end of the line.
fn parse_eol_comment(s: &mut SqliState) -> (r: usize)
    requires
        old(s).wf(),
        old(s).pos < old(s).length,
    ensures
        stepped(old(s), final(s), r, lex_eol_comment(old(s).input@, old(s).pos as int, cur(old(s)))),
{
    let pos = s.pos;
    let length = s.length;
    let haystack = inp(s, pos);
    match memchr(10, haystack) {
        None => {
            proof {
                lemma_byte_absent(haystack@, 10);
            }
            emit(s, TT_COMMENT, pos, length - pos);
            length
        },
        Some(i) => {
            proof {
                lemma_byte_first(haystack@, 10, i as int);
            }
            emit(s, TT_COMMENT, pos, i);
            pos + i + 1
        },
    }
}

/// Bare word / keyword (split at an embedded `.` or backtick that ends a keyword).
fn parse_word(s: &mut SqliState) -> (r: usize)
    requires
        old(s).wf(),
        old(s).pos < old(s).length,
        !spec_is_word_delim(old(s).input@[old(s).pos as int]),
    ensures
        stepped(old(s), final(s), r, lex_word(old(s).input@, old(s).pos as int, cur(old(s)))),
{
    let pos = s.pos;
    let length = str_len_cspn(s.input, pos, false);
    proof {
        lemma_run_end(s.input@, pos + 1, ByteClass::WordByte);
    }
    emit(s, TT_BAREWORD, pos, length);
    let tok = s.current();
    let val_len = tok.len;
    let val = tok.val;
    let ghost v = s.input@.subrange(pos as int, pos + cap_len(length as int));
    assert(val@.subrange(0, val_len as int) == v);
    let mut i: usize = 0;
    while i < val_len
        invariant
            s.wf(),
            kept(old(s), s),
            cur(s) == assigned(cur(old(s)), TT_BAREWORD, old(s).input@, pos as int, length as int),
            s.spec_current().canonical(),
            pos == old(s).pos,
            length >= 1,
            pos + length <= s.length,
            pos + length == run_end(old(s).input@, pos as int, ByteClass::WordByte),
            val_len < TOKEN_SIZE,
            val_len == cap_len(length as int),
            val@.subrange(0, val_len as int) == v,
            v == old(s).input@.subrange(pos as int, pos + cap_len(length as int)),
            i <= val_len,
            word_split(v, 0) == word_split(v, i as int),
        decreases val_len - i,
    {
        let delimiter = val[i];
        if delimiter == 46 || delimiter == 96 {
            let vs: &[u8] = val.as_slice();
            let prefix: &[u8] = &vs[0..i];
            proof {
                assert(prefix@ =~= v.subrange(0, i as int));
                assert(v[i as int] == delimiter);
            }
            let ch = lookup_word(LOOKUP_WORD, prefix);
            if ch != TT_NONE && ch != TT_BAREWORD {
                proof {
                    if i == 0 {
                        lemma_no_empty_key();
                        assert(prefix@ =~= Seq::<u8>::empty());
                    }
                }
                let e = SqliToken::empty();
                s.set_current(e);
                proof {
                    assert(e.spec_val() =~= Seq::<u8>::empty());
                }
                emit(s, ch, pos, i);
                return pos + i;
            }
        }
        proof {
            assert(v[i as int] == val@[i as int]);
        }
        i += 1;
    }
    if length < TOKEN_SIZE {
        let word = inp2(s, pos, pos + length);
        let mut ch = lookup_word(LOOKUP_WORD, word);
        if ch == BYTE_NULL {
            ch = TT_BAREWORD;
        }
        set_category(s, ch);
    }
    pos + length
}

/// `@var` / `@@var` (also quoted and backtick names).
fn parse_var(s: &mut SqliState) -> (r: usize)
    requires
        old(s).wf(),
        old(s).pos < old(s).length,
    ensures
        stepped(old(s), final(s), r, lex_var(old(s).input@, old(s).pos as int, cur(old(s)))),
{
    let mut pos = s.pos + 1;
    let mut t = s.current();
    if pos < s.length && s.input[pos] == 64 {
        pos += 1;
        t.count = 2;
    } else {
        t.count = 1;
    }
    s.set_current(t);
    if pos < s.length {
        let b = s.input[pos];
        if b == BYTE_TICK {
            s.pos = pos;
            let np = parse_tick(s);
            set_category(s, TT_VARIABLE);
            return np;
        }
        if b == BYTE_SINGLE || b == BYTE_DOUBLE {
            s.pos = pos;
            let np = parse_string(s);
            set_category(s, TT_VARIABLE);
            return np;
        }
    }
    let length = str_len_cspn(s.input, pos, true);
    emit(s, TT_VARIABLE, pos, length);
    pos + length
}

/// Numbers: hex `0x..`, binary `0b..`, decimals, exponents, type suffixes.
fn parse_number(s: &mut SqliState) -> (r: usize)
    requires
        old(s).wf(),
        old(s).pos < old(s).length,
        old(s).input@[old(s).pos as int] == 46 || (48 <= old(s).input@[old(s).pos as int] <= 57),
    ensures
        stepped(old(s), final(s), r, lex_number(old(s).input@, old(s).pos as int, cur(old(s)))),
{
    let input = s.input;
    let length = s.length;
    let start = s.pos;
    if input[start] == 48 && start + 1 < length {
        let next = input[start + 1];
        let is_hex = next == 88 || next == 120;
        let is_bin = next == 66 || next == 98;
        if is_hex || is_bin {
            let dlen = if is_hex {
                str_len_spn(input, start + 2, ByteClass::HexDigit)
            } else {
                str_len_spn(input, start + 2, ByteClass::BinDigit)
            };
            if dlen == 0 {
                emit(s, TT_BAREWORD, start, 2);
                return start + 2;
            }
            emit(s, TT_NUMBER, start, 2 + dlen);
            return start + 2 + dlen;
        }
    }
    let mut pos = start + str_len_spn(input, start, ByteClass::Digit);
    proof {
        lemma_run_end(input@, start as int, ByteClass::Digit);
    }
    let ghost p1 = pos as int;
    if pos < length && input[pos] == 46 {
        pos += 1;
        pos = pos + str_len_spn(input, pos, ByteClass::Digit);
        if pos - start == 1 {
            emit(s, TT_DOT, start, 1);
            return pos;
        }
    }
    parse_number_tail(s, start, pos)
}

/// The exponent and type suffix of a number at `start` whose mantissa ends at `pos`.
fn parse_number_tail(s: &mut SqliState, start: usize, pos: usize) -> (r: usize)
    requires
        old(s).wf(),
        old(s).pos == start,
        start < pos <= old(s).length,
    ensures
        stepped(old(s), final(s), r, number_tail(old(s).input@, start as int, pos as int, cur(old(s)))),
{
    let input = s.input;
    let length = s.length;
    let mut pos = pos;
    let mut have_e = false;
    let mut have_exp = false;
    if pos < length && (input[pos] == 69 || input[pos] == 101) {
        have_e = true;
        pos += 1;
        if pos < length && (input[pos] == 43 || input[pos] == 45) {
            pos += 1;
        }
        let d = str_len_spn(input, pos, ByteClass::Digit);
        if d > 0 {
            have_exp = true;
        }
        pos = pos + d;
    }
    if pos < length && (input[pos] == 100 || input[pos] == 68 || input[pos] == 102 || input[pos] == 70) {
        if pos + 1 == length || (is_byte_white(input[pos + 1]) || input[pos + 1] == 59 || input[pos + 1] == 117
            || input[pos + 1] == 85) {
            pos += 1;
        }
    }
    if !(have_e && !have_exp) {
        emit(s, TT_NUMBER, start, pos - start);
    }
    pos
}

/// Backtick-quoted identifier (a function when the name is one).
fn parse_tick(s: &mut SqliState) -> (r: usize)
    requires
        old(s).wf(),
        old(s).pos < old(s).length,
    ensures
        stepped(old(s), final(s), r, lex_tick(old(s).input@, old(s).pos as int, cur(old(s)))),
{
    let input = s.input;
    let length = s.length;
    let pos = s.pos;
    let mut t = s.current();
    let new_pos = t.parse_string_core(input, length, pos, 1, BYTE_TICK);
    let ch = lookup_word(LOOKUP_WORD, t.val_slice());
    if ch == TT_FUNCTION {
        t.category = TT_FUNCTION;
    } else {
        t.category = TT_BAREWORD;
    }
    s.set_current(t);
    new_pos
}

/// `u&'...'` unicode string, else a word.
fn parse_ustring(s: &mut SqliState) -> (r: usize)
    requires
        old(s).wf(),
        old(s).pos < old(s).length,
        spec_is_alpha(old(s).input@[old(s).pos as int]),
    ensures
        stepped(old(s), final(s), r, lex_ustring(old(s).input@, old(s).pos as int, cur(old(s)))),
{
    let pos = s.pos;
    if pos + 2 < s.length && s.input[pos + 1] == 38 && s.input[pos + 2] == BYTE_SINGLE {
        s.pos = pos + 2;
        let new_pos = parse_string(s);
        let close = if s.current().str_close == BYTE_SINGLE {
            117
        } else {
            s.current().str_close
        };
        set_delims(s, 117, close);
        return new_pos;
    }
    parse_word(s)
}

/// Oracle `q'..'` string, else a word.
fn parse_qstring(s: &mut SqliState) -> (r: usize)
    requires
        old(s).wf(),
        old(s).pos < old(s).length,
        spec_is_alpha(old(s).input@[old(s).pos as int]),
    ensures
        stepped(old(s), final(s), r, lex_qstring_core(old(s).input@, old(s).pos as int, 0, cur(old(s)))),
{
    parse_qstring_core(s, 0)
}

/// `n'..'` national string or `nq'..'`, else a word.
fn parse_nqstring(s: &mut SqliState) -> (r: usize)
    requires
        old(s).wf(),
        old(s).pos < old(s).length,
        spec_is_alpha(old(s).input@[old(s).pos as int]),
    ensures
        stepped(old(s), final(s), r, lex_nqstring(old(s).input@, old(s).pos as int, cur(old(s)))),
{
    let pos = s.pos;
    if pos + 2 < s.length && s.input[pos + 1] == BYTE_SINGLE {
        return parse_estring(s);
    }
    parse_qstring_core(s, 1)
}

/// Oracle q-quote at `pos + offset`: `q'<open>...<close>'`.
fn parse_qstring_core(s: &mut SqliState, offset: usize) -> (r: usize)
    requires
        old(s).wf(),
        old(s).pos < old(s).length,
        offset <= 1,
        spec_is_alpha(old(s).input@[old(s).pos as int]),
    ensures
        stepped(
            old(s),
            final(s),
            r,
            lex_qstring_core(old(s).input@, old(s).pos as int, offset as int, cur(old(s))),
        ),
{
    let pos = s.pos + offset;
    let input = s.input;
    let length = s.length;
    if pos >= length {
        return parse_word(s);
    }
    let first = input[pos];
    if first != 113 && first != 81 {
        return parse_word(s);
    }
    if pos + 2 >= length || input[pos + 1] != BYTE_SINGLE {
        return parse_word(s);
    }
    let mut ch = input[pos + 2];
    if ch < 33 {
        return parse_word(s);
    }
    if ch == 40 {
        ch = 41;
    } else if ch == 91 {
        ch = 93;
    } else if ch == 123 {
        ch = 125;
    } else if ch == 60 {
        ch = 62;
    }
    let needle = [ch, BYTE_SINGLE];
    let haystack = inp(s, pos + 3);
    let idx = find_subslice(haystack, &needle);
    proof {
        assert(needle@ =~= seq![ch, 39u8]);
    }
    match idx {
        None => {
            emit(s, TT_STRING, pos + 3, length - pos - 3);
            set_delims(s, 113, BYTE_NULL);
            length
        },
        Some(i) => {
            emit(s, TT_STRING, pos + 3, i);
            set_delims(s, 113, 113);
            pos + 3 + i + 2
        },
    }
}

/// `X'hex'` / `B'01'` (by `class`), else a word.
fn parse_radix_string(s: &mut SqliState, class: ByteClass) -> (r: usize)
    requires
        old(s).wf(),
        old(s).pos < old(s).length,
        spec_is_alpha(old(s).input@[old(s).pos as int]),
    ensures
        stepped(old(s), final(s), r, lex_radix_string(old(s).input@, old(s).pos as int, class, cur(old(s)))),
{
    let pos = s.pos;
    if pos + 2 >= s.length || s.input[pos + 1] != BYTE_SINGLE {
        return parse_word(s);
    }
    let dlen = str_len_spn(s.input, pos + 2, class);
    if pos + 2 + dlen >= s.length || s.input[pos + 2 + dlen] != BYTE_SINGLE {
        return parse_word(s);
    }
    emit(s, TT_NUMBER, pos, dlen + 3);
    pos + 2 + dlen + 1
}

/// `X'hex'`, else a word.
fn parse_xstring(s: &mut SqliState) -> (r: usize)
    requires
        old(s).wf(),
        old(s).pos < old(s).length,
        spec_is_alpha(old(s).input@[old(s).pos as int]),
    ensures
        stepped(
            old(s),
            final(s),
            r,
            lex_radix_string(old(s).input@, old(s).pos as int, ByteClass::HexDigit, cur(old(s))),
        ),
{
    parse_radix_string(s, ByteClass::HexDigit)
}

/// `B'01'`, else a word.
fn parse_bstring(s: &mut SqliState) -> (r: usize)
    requires
        old(s).wf(),
        old(s).pos < old(s).length,
        spec_is_alpha(old(s).input@[old(s).pos as int]),
    ensures
        stepped(
            old(s),
            final(s),
            r,
            lex_radix_string(old(s).input@, old(s).pos as int, ByteClass::BinDigit, cur(old(s))),
        ),
{
    parse_radix_string(s, ByteClass::BinDigit)
}

/// `E'...'` escaped string, else a word.
fn parse_estring(s: &mut SqliState) -> (r: usize)
    requires
        old(s).wf(),
        old(s).pos < old(s).length,
        spec_is_alpha(old(s).input@[old(s).pos as int]),
    ensures
        stepped(old(s), final(s), r, lex_estring(old(s).input@, old(s).pos as int, cur(old(s)))),
{
    let pos = s.pos;
    if pos + 2 >= s.length || s.input[pos + 1] != BYTE_SINGLE {
        return parse_word(s);
    }
    let input = s.input;
    let length = s.length;
    let mut t = s.current();
    let r = t.parse_string_core(input, length, pos, 2, BYTE_SINGLE);
    s.set_current(t);
    r
}

/// T-SQL `[identifier]`.
fn parse_bword(s: &mut SqliState) -> (r: usize)
    requires
        old(s).wf(),
        old(s).pos < old(s).length,
    ensures
        stepped(old(s), final(s), r, lex_bword(old(s).input@, old(s).pos as int, cur(old(s)))),
{
    let pos = s.pos;
    let length = s.length;
    let haystack = inp(s, pos);
    match memchr(93, haystack) {
        None => {
            proof {
                lemma_byte_absent(haystack@, 93);
            }
            emit(s, TT_BAREWORD, pos, length - pos);
            length
        },
        Some(i) => {
            proof {
                lemma_byte_first(haystack@, 93, i as int);
            }
            emit(s, TT_BAREWORD, pos, i + 1);
            pos + i + 1
        },
    }
}

/// The dollar-quoted body at `body`, closed by `closer` when it occurs.
fn parse_dollar_body(s: &mut SqliState, body: usize, closer: &[u8]) -> (r: usize)
    requires
        old(s).wf(),
        old(s).pos < body <= old(s).length,
        closer@.len() > 0,
    ensures
        stepped(old(s), final(s), r, dollar_body(old(s).input@, body as int, closer@, cur(old(s)))),
{
    let length = s.length;
    let haystack = inp(s, body);
    let idx = find_subslice(haystack, closer);
    match idx {
        None => {
            emit(s, TT_STRING, body, length - body);
            set_delims(s, 36, BYTE_NULL);
            length
        },
        Some(i) => {
            emit(s, TT_STRING, body, i);
            set_delims(s, 36, 36);
            body + i + closer.len()
        },
    }
}

/// `$`: money `$1.5`, dollar-quoted `$$..$$` / `$tag$..$tag$` strings, else a word.
fn parse_money(s: &mut SqliState) -> (r: usize)
    requires
        old(s).wf(),
        old(s).pos < old(s).length,
        old(s).input@[old(s).pos as int] == 36,
    ensures
        stepped(old(s), final(s), r, lex_money(old(s).input@, old(s).pos as int, cur(old(s)))),
{
    let pos = s.pos;
    let length = s.length;
    let input = s.input;
    if pos + 1 == length {
        emit(s, TT_BAREWORD, pos, 1);
        return length;
    }
    let dlen = str_len_spn(input, pos + 1, ByteClass::MoneyDigit);
    if dlen == 0 {
        if input[pos + 1] == 36 {
            let closer = [36u8, 36];
            proof {
                assert(closer@ =~= seq![36u8, 36]);
            }
            return parse_dollar_body(s, pos + 2, &closer);
        }
        let xlen = str_len_spn(input, pos + 1, ByteClass::Alpha);
        if xlen == 0 {
            emit(s, TT_BAREWORD, pos, 1);
            return pos + 1;
        }
        if pos + xlen + 1 == length || input[pos + xlen + 1] != 36 {
            emit(s, TT_BAREWORD, pos, 1);
            return pos + 1;
        }
        let tag = inp2(s, pos, pos + xlen + 2);
        return parse_dollar_body(s, pos + xlen + 2, tag);
    }
    if dlen == 1 && input[pos + 1] == 46 {
        return parse_word(s);
    }
    emit(s, TT_NUMBER, pos, dlen + 1);
    pos + dlen + 1
}

} // verus!
