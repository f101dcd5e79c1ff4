//! The HTML5 tokenizer as a specification: from a cursor over the input, the
//! cursor after one token and the token (a kind and a range of the input).
use vstd::prelude::*;
use crate::engine::ascii::{seq_eq_ic, spec_is_alpha};
use crate::xss::legacy::html5::{doctype_word, spec_is_html_whitespace, Html5ParseState, Html5Type};

verus! {

/// Where a scan stops.
#[derive(Clone, Copy)]
pub enum Stop {
    /// At the given byte.
    Byte(u8),
    /// At a byte that is not HTML whitespace.
    NotSpace,
    /// At the end of an unquoted attribute value: whitespace, `>` or `/`.
    ValueEnd,
    /// At the end of an attribute name: whitespace, `=`, `/` or `>`.
    NameEnd,
    /// At the end of a tag name: whitespace other than NUL, `>`, or `/` (not in a close tag).
    TagNameEnd(bool),
    /// At a byte other than NUL.
    NotNul,
}

/// A scan for `k` stops at byte `b`.
pub open spec fn stops(b: u8, k: Stop) -> bool {
    match k {
        Stop::Byte(x) => b == x,
        Stop::NotSpace => !spec_is_html_whitespace(b),
        Stop::ValueEnd => spec_is_html_whitespace(b) || b == 62 || b == 47,
        Stop::NameEnd => spec_is_html_whitespace(b) || b == 61 || b == 47 || b == 62,
        Stop::TagNameEnd(close) => b != 0 && (spec_is_html_whitespace(b) || (b == 47 && !close) || b == 62),
        Stop::NotNul => b != 0,
    }
}

/// The first index at or after `p` where a scan for `k` stops (the input's
/// length when none).
pub open spec fn first_stop(input: Seq<u8>, p: int, k: Stop) -> int
    decreases input.len() - p,
{
    if p < 0 || p >= input.len() || stops(input[p], k) {
        p
    } else {
        first_stop(input, p + 1, k)
    }
}

/// A scan from `p` stops within the input, after only bytes it passes over.
pub proof fn lemma_first_stop(input: Seq<u8>, p: int, k: Stop)
    requires
        0 <= p <= input.len(),
    ensures
        p <= first_stop(input, p, k) <= input.len(),
        first_stop(input, p, k) < input.len() ==> stops(input[first_stop(input, p, k)], k),
        forall|j: int| p <= j < first_stop(input, p, k) ==> !stops(#[trigger] input[j], k),
    decreases input.len() - p,
{
    if p < input.len() && !stops(input[p], k) {
        lemma_first_stop(input, p + 1, k);
    }
}

/// A scan from `i` passes `n` bytes where it cannot stop.
pub proof fn lemma_first_stop_past(input: Seq<u8>, i: int, n: int, k: Stop)
    requires
        0 <= i,
        0 <= n,
        i + n <= input.len(),
        forall|j: int| i <= j < i + n ==> !stops(#[trigger] input[j], k),
    ensures
        i + n <= first_stop(input, i, k) <= input.len(),
    decreases n,
{
    if n > 0 {
        lemma_first_stop_past(input, i + 1, n - 1, k);
    } else {
        lemma_first_stop(input, i, k);
    }
}

/// The tokenizer's position and flags.
pub struct Cursor {
    pub pos: int,
    pub state: Html5ParseState,
    pub is_close: bool,
    pub expect_eq: bool,
}

/// A token: its kind and the range `input[start..end]` it holds.
pub struct Lexeme {
    pub kind: Html5Type,
    pub start: int,
    pub end: int,
}

/// One tokenizer step: the cursor after it and the token, if any.
pub struct Out {
    pub at: Cursor,
    pub tok: Option<Lexeme>,
}

/// A step ending at `at` with the token `kind` of `input[start..end]`.
pub open spec fn out(at: Cursor, kind: Html5Type, start: int, end: int) -> Out {
    Out { at, tok: Some(Lexeme { kind, start, end }) }
}

/// `CDATA` opener after `<!`.
pub open spec fn cdata_word() -> Seq<u8> {
    seq![91u8, 67, 68, 65, 84, 65, 91]
}

/// The first index at or after `p` where `%>` starts (the length when none).
pub open spec fn pct_end(input: Seq<u8>, p: int) -> int
    decreases input.len() - p,
{
    if p < 0 || p >= input.len() || (p + 2 <= input.len() && input[p] == 37 && input[p + 1] == 62) {
        p
    } else {
        pct_end(input, p + 1)
    }
}

/// Where a comment that is scanned from `scan` closes: the index of its
/// closing `-`, NULs, `-` or `!`, `>` run, and the index after it.
pub open spec fn comment_close(input: Seq<u8>, scan: int) -> Option<(int, int)>
    decreases input.len() - scan,
{
    let n = input.len() as int;
    if scan < 0 || scan > n {
        None
    } else {
        let abs = first_stop(input, scan, Stop::Byte(45));
        proof {
            lemma_first_stop(input, scan, Stop::Byte(45));
        }
        if abs >= n || n - abs < 3 {
            None
        } else {
            let o = first_stop(input, abs + 1, Stop::NotNul);
            if o >= n {
                None
            } else if input[o] != 45 && input[o] != 33 {
                comment_close(input, abs + 1)
            } else if !(o + 1 < n && input[o + 1] == 62) {
                comment_close(input, abs + 1)
            } else {
                Some((abs, o + 2))
            }
        }
    }
}

/// Where a CDATA body that is scanned from `scan` closes: the index of its `]]>`.
pub open spec fn cdata_close(input: Seq<u8>, scan: int) -> Option<int>
    decreases input.len() - scan,
{
    let n = input.len() as int;
    if scan < 0 || scan > n {
        None
    } else {
        let abs = first_stop(input, scan, Stop::Byte(93));
        proof {
            lemma_first_stop(input, scan, Stop::Byte(93));
        }
        if abs >= n {
            None
        } else if n - abs >= 3 && input[abs + 1] == 93 && input[abs + 2] == 62 {
            Some(abs)
        } else {
            cdata_close(input, abs + 1)
        }
    }
}

/// A tag name at `c.pos` (of a close tag when `c.is_close`).
pub open spec fn tag_name(input: Seq<u8>, c: Cursor) -> Out {
    let n = input.len() as int;
    let e = first_stop(input, c.pos, Stop::TagNameEnd(c.is_close));
    if e >= n {
        out(Cursor { pos: n, state: Html5ParseState::InTag, is_close: false, ..c }, Html5Type::TagNameOpen, c.pos, n)
    } else if spec_is_html_whitespace(input[e]) {
        out(
            Cursor {
                pos: first_stop(input, e, Stop::NotSpace),
                state: Html5ParseState::InTag,
                is_close: false,
                ..c
            },
            Html5Type::TagNameOpen,
            c.pos,
            e,
        )
    } else if input[e] == 47 && !c.is_close {
        out(Cursor { pos: e, state: Html5ParseState::InTag, ..c }, Html5Type::TagNameOpen, c.pos, e)
    } else if c.is_close {
        out(Cursor { pos: e + 1, state: Html5ParseState::Data, is_close: false, ..c }, Html5Type::TagClose, c.pos, e)
    } else {
        out(Cursor { pos: e, state: Html5ParseState::InTag, ..c }, Html5Type::TagNameOpen, c.pos, e)
    }
}

/// A comment body at `c.pos`, up to `-->` or `-!>`.
pub open spec fn comment(input: Seq<u8>, c: Cursor) -> Out {
    match comment_close(input, c.pos) {
        Some((abs, end)) => out(Cursor { pos: end, state: Html5ParseState::Data, ..c }, Html5Type::TagComment, c.pos, abs),
        None => out(Cursor { pos: input.len() as int, ..c }, Html5Type::TagComment, c.pos, input.len() as int),
    }
}

/// A CDATA body at `c.pos`, up to `]]>`.
pub open spec fn cdata(input: Seq<u8>, c: Cursor) -> Out {
    match cdata_close(input, c.pos) {
        Some(abs) => out(Cursor { pos: abs + 3, state: Html5ParseState::Data, ..c }, Html5Type::DataText, c.pos, abs),
        None => out(Cursor { pos: input.len() as int, ..c }, Html5Type::DataText, c.pos, input.len() as int),
    }
}

/// A bogus comment at `c.pos`, up to `>`.
pub open spec fn bogus_comment(input: Seq<u8>, c: Cursor) -> Out {
    let idx = first_stop(input, c.pos, Stop::Byte(62));
    if idx < input.len() {
        out(Cursor { pos: idx + 1, state: Html5ParseState::Data, ..c }, Html5Type::TagComment, c.pos, idx)
    } else {
        out(Cursor { pos: input.len() as int, ..c }, Html5Type::TagComment, c.pos, input.len() as int)
    }
}

/// An attribute name at `c.pos`: at least one byte, up to a name's end.
pub open spec fn attr_name(input: Seq<u8>, c: Cursor) -> Out {
    if c.pos >= input.len() {
        Out { at: c, tok: None }
    } else {
        let e = first_stop(input, c.pos + 1, Stop::NameEnd);
        out(Cursor { pos: e, expect_eq: true, ..c }, Html5Type::AttrName, c.pos, e)
    }
}

/// An attribute value at `c.pos`, closed by `quote` (consumed) or, unquoted,
/// by a value's end; the tokenizer is then back inside the tag.
pub open spec fn attr_value_body(input: Seq<u8>, c: Cursor, quote: Option<u8>) -> Out {
    let n = input.len() as int;
    match quote {
        Some(q) => {
            let e = first_stop(input, c.pos, Stop::Byte(q));
            out(
                Cursor { pos: if e < n { e + 1 } else { e }, state: Html5ParseState::InTag, ..c },
                Html5Type::AttrValue,
                c.pos,
                e,
            )
        },
        None => {
            let e = first_stop(input, c.pos, Stop::ValueEnd);
            out(Cursor { pos: e, state: Html5ParseState::InTag, ..c }, Html5Type::AttrValue, c.pos, e)
        },
    }
}

/// The value after the `=` at `c.pos`, quoted by `'`, `"` or a backtick, or not.
pub open spec fn attr_value(input: Seq<u8>, c: Cursor) -> Out {
    let p = first_stop(input, c.pos + 1, Stop::NotSpace);
    let c1 = Cursor { pos: p, expect_eq: false, ..c };
    if p >= input.len() {
        Out { at: c1, tok: None }
    } else {
        let ch = input[p];
        if ch == 39 || ch == 34 || ch == 96 {
            attr_value_body(
                input,
                Cursor { pos: p + 1, state: Html5ParseState::InAttrValue { quote: Some(ch) }, ..c1 },
                Some(ch),
            )
        } else {
            attr_value_body(input, Cursor { state: Html5ParseState::InAttrValue { quote: None }, ..c1 }, None)
        }
    }
}

/// The `>` at `c.pos` that closes a tag.
pub open spec fn tag_close(c: Cursor) -> Out {
    out(
        Cursor { pos: c.pos + 1, state: Html5ParseState::Data, expect_eq: false, ..c },
        Html5Type::TagNameClose,
        c.pos,
        c.pos + 1,
    )
}

/// The `/` at `c.pos` inside a tag: `/>` ends a self-closing tag, else an attribute name follows.
pub open spec fn slash_in_tag(input: Seq<u8>, c: Cursor) -> Out {
    let p = first_stop(input, c.pos + 1, Stop::NotSpace);
    if p < input.len() && input[p] == 62 {
        out(Cursor { pos: p + 1, state: Html5ParseState::Data, ..c }, Html5Type::TagNameSelfClose, c.pos, p + 1)
    } else {
        attr_name(input, Cursor { pos: p, ..c })
    }
}

/// The next token inside a tag.
pub open spec fn in_tag(input: Seq<u8>, c: Cursor) -> Out {
    let p = first_stop(input, c.pos, Stop::NotSpace);
    let c1 = Cursor { pos: p, ..c };
    if p >= input.len() {
        Out { at: c1, tok: None }
    } else if input[p] == 47 {
        slash_in_tag(input, c1)
    } else if input[p] == 62 {
        tag_close(c1)
    } else if input[p] == 61 && c.expect_eq {
        attr_value(input, c1)
    } else {
        attr_name(input, c1)
    }
}

/// What follows the `<` just before `c.pos`.
pub open spec fn after_lt(input: Seq<u8>, c: Cursor) -> Out {
    let n = input.len() as int;
    let p = c.pos;
    if p >= n {
        Out { at: c, tok: None }
    } else if input[p] == 33 {
        let dash = p + 1 < n && input[p + 1] == 45;
        let q = if dash {
            p + 2
        } else {
            p + 1
        };
        if dash && p + 2 < n && input[p + 2] == 45 {
            comment(input, Cursor { pos: p + 3, ..c })
        } else if q + 7 <= n && input.subrange(q, q + 7) == cdata_word() {
            cdata(input, Cursor { pos: q + 7, ..c })
        } else if q + 7 <= n && seq_eq_ic(input.subrange(q, q + 7), doctype_word()) {
            let g = first_stop(input, q, Stop::Byte(62));
            out(Cursor { pos: if g < n { g + 1 } else { g }, ..c }, Html5Type::DocType, q, g)
        } else {
            bogus_comment(input, Cursor { pos: q, ..c })
        }
    } else if input[p] == 47 {
        if p + 1 < n && input[p + 1] == 62 {
            Out { at: Cursor { pos: p + 2, state: Html5ParseState::Data, ..c }, tok: None }
        } else if p + 1 < n && spec_is_alpha(input[p + 1]) {
            tag_name(input, Cursor { pos: p + 1, is_close: true, ..c })
        } else {
            bogus_comment(input, Cursor { pos: p + 1, is_close: false, ..c })
        }
    } else if input[p] == 63 {
        bogus_comment(input, Cursor { pos: p + 1, ..c })
    } else if input[p] == 37 {
        let e = pct_end(input, p + 1);
        out(
            Cursor { pos: if e < n { e + 2 } else { e }, state: Html5ParseState::Data, ..c },
            Html5Type::TagComment,
            p + 1,
            e,
        )
    } else if spec_is_alpha(input[p]) || input[p] == 0 {
        tag_name(input, c)
    } else {
        out(Cursor { state: Html5ParseState::Data, ..c }, Html5Type::DataText, p - 1, p)
    }
}

/// The next token in text data.
pub open spec fn in_data(input: Seq<u8>, c: Cursor) -> Out {
    if input[c.pos] == 60 {
        after_lt(input, Cursor { pos: c.pos + 1, ..c })
    } else {
        let e = first_stop(input, c.pos, Stop::Byte(60));
        out(Cursor { pos: e, ..c }, Html5Type::DataText, c.pos, e)
    }
}

/// The next token from cursor `c` (none at the end of the input).
pub open spec fn next(input: Seq<u8>, c: Cursor) -> Out {
    if c.pos >= input.len() {
        Out { at: c, tok: None }
    } else {
        match c.state {
            Html5ParseState::InTag => in_tag(input, c),
            Html5ParseState::Data => in_data(input, c),
            Html5ParseState::InAttrValue { quote } => attr_value_body(input, c, quote),
        }
    }
}

} // verus!
