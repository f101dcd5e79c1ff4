//! HTML5 tokenizer of the legacy XSS engine (zero-copy slices into the input).
use vstd::prelude::*;
use crate::engine::ascii::{byte_eq_ic, eq_ic, is_alpha, seq_eq_ic};
use crate::xss::legacy::html5_lex::{
    after_lt, attr_name, attr_value, attr_value_body, bogus_comment, cdata, cdata_close, cdata_word, comment,
    comment_close, first_stop, in_data, in_tag, lemma_first_stop, lemma_first_stop_past, next, pct_end,
    slash_in_tag, stops, tag_close, tag_name, Cursor, Lexeme, Out, Stop,
};

verus! {

/// Tokenizer start context.
#[derive(Clone, Copy, Debug, PartialEq, Eq, Structural)]
pub enum Html5Flags {
    /// Normal HTML data.
    DataState,
    /// Inside an unquoted attribute value.
    ValueNoQuote,
    /// Inside a single-quoted attribute value.
    ValueSingleQuote,
    /// Inside a double-quoted attribute value.
    ValueDoubleQuote,
    /// Inside a backtick-quoted attribute value.
    ValueBackQuote,
}

/// Token kinds of the tokenizer.
#[derive(Clone, Copy, Debug, PartialEq, Eq, Structural)]
pub enum Html5Type {
    /// Text or CDATA body.
    DataText,
    /// Opening tag name.
    TagNameOpen,
    /// `>` closing an open tag.
    TagNameClose,
    /// `/>` ending a self-closing tag.
    TagNameSelfClose,
    /// Tag data (kept for the full kind set; not emitted).
    TagData,
    /// Close tag name (`</name>`).
    TagClose,
    /// Attribute name.
    AttrName,
    /// Attribute value.
    AttrValue,
    /// Comment or bogus comment body.
    TagComment,
    /// DOCTYPE declaration body.
    DocType,
}

/// Where the tokenizer stands.
#[derive(Clone, Copy, Debug, PartialEq, Eq, Structural)]
pub enum Html5ParseState {
    /// Parsing text data.
    Data,
    /// Inside a tag, after its name.
    InTag,
    /// At an attribute value; `quote` is its delimiter (`None` when unquoted).
    InAttrValue {
        /// Quote byte, or `None` if the value is unquoted.
        quote: Option<u8>,
    },
}

/// One token: its kind and its bytes (a slice of the input).
#[derive(Clone, Copy, Debug, PartialEq, Eq)]
pub struct Html5Token<'a> {
    /// Token kind.
    pub kind: Html5Type,
    /// Bytes of this token (a slice of the original input).
    pub value: &'a [u8],
}

/// HTML whitespace: NUL, tab, line feed, vertical tab, form feed, carriage return, space.
pub open spec fn spec_is_html_whitespace(b: u8) -> bool {
    b == 0 || b == 9 || b == 10 || b == 11 || b == 12 || b == 13 || b == 32
}

/// HTML whitespace: NUL, tab, line feed, vertical tab, form feed, carriage return, space.
pub fn is_html_whitespace(b: u8) -> (r: bool)
    ensures
        r == spec_is_html_whitespace(b),
{
    b == 0 || b == 9 || b == 10 || b == 11 || b == 12 || b == 13 || b == 32
}

/// Bytes that end an attribute name inside a tag.
pub fn is_delimiter(b: u8) -> (r: bool)
    ensures
        r == (spec_is_html_whitespace(b) || b == 61 || b == 47 || b == 62),
{
    is_html_whitespace(b) || b == 61 || b == 47 || b == 62
}

/// `v` is a run of `input` lying within `input[lo..hi]`.
pub open spec fn slice_in(v: Seq<u8>, input: Seq<u8>, lo: int, hi: int) -> bool {
    exists|a: int, b: int| lo <= a <= b <= hi && v == #[trigger] input.subrange(a, b)
}

/// `DOCTYPE` in upper case.
pub open spec fn doctype_word() -> Seq<u8> {
    seq![68u8, 79, 67, 84, 89, 80, 69]
}

/// A DOCTYPE body: it starts with `DOCTYPE` (any letter case).
pub open spec fn doctype_body(v: Seq<u8>) -> bool {
    v.len() >= 7 && seq_eq_ic(v.subrange(0, 7), doctype_word())
}

/// A DOCTYPE token, if `r` is one, has a DOCTYPE body.
pub open spec fn doctype_ok<'a>(r: Option<Html5Token<'a>>) -> bool {
    r matches Some(t) ==> (t.kind == Html5Type::DocType ==> doctype_body(t.value@))
}

/// Tokenizer cursor over `input`.
pub struct Html5State<'a> {
    /// Full input being tokenized.
    pub input: &'a [u8],
    /// Byte offset of the next byte to read.
    pub pos: usize,
    /// Current tokenizer state.
    pub state: Html5ParseState,
    /// Parsing a close tag name (`</...>`).
    pub is_close: bool,
    /// After an attribute name, `=` begins its value.
    pub expect_attr_equals: bool,
}

/// `r`, if a token, is a slice of the input read between `lo` and the new position.
pub open spec fn token_within<'a>(r: Option<Html5Token<'a>>, new: &Html5State<'a>, lo: int) -> bool {
    r matches Some(t) ==> slice_in(t.value@, new.input@, lo, new.pos as int)
}

/// `new` continues `old` over the same input without moving back.
pub open spec fn moved_on<'a>(old: &Html5State<'a>, new: &Html5State<'a>) -> bool {
    &&& new.wf()
    &&& new.input == old.input
    &&& old.pos <= new.pos
}

/// `r` is the token `l` names: the same kind, holding that range of `input`.
pub open spec fn token_is<'a>(r: Option<Html5Token<'a>>, input: Seq<u8>, l: Option<Lexeme>) -> bool {
    match (r, l) {
        (Some(t), Some(x)) => t.kind == x.kind && t.value@ == input.subrange(x.start, x.end),
        (None, None) => true,
        _ => false,
    }
}

/// A step ran from `old` to `new` and returned `r`, as `o` says.
pub open spec fn produced<'a>(old: &Html5State<'a>, new: &Html5State<'a>, r: Option<Html5Token<'a>>, o: Out) -> bool {
    &&& new.wf()
    &&& new.input == old.input
    &&& new.cursor() == o.at
    &&& token_is(r, old.input@, o.tok)
}

/// A scan for `k` stops at byte `b`.
pub fn stops_at(b: u8, k: Stop) -> (r: bool)
    ensures
        r == stops(b, k),
{
    match k {
        Stop::Byte(x) => b == x,
        Stop::NotSpace => !is_html_whitespace(b),
        Stop::ValueEnd => is_html_whitespace(b) || b == 62 || b == 47,
        Stop::NameEnd => is_delimiter(b),
        Stop::TagNameEnd(close) => b != 0 && (is_html_whitespace(b) || (b == 47 && !close) || b == 62),
        Stop::NotNul => b != 0,
    }
}

impl<'a> Html5State<'a> {
    /// The cursor is inside the input.
    pub open spec fn wf(&self) -> bool {
        &&& self.pos <= self.input@.len()
        &&& self.input@.len() <= usize::MAX
    }

    /// The tokenizer's position and flags.
    pub open spec fn cursor(&self) -> Cursor {
        Cursor {
            pos: self.pos as int,
            state: self.state,
            is_close: self.is_close,
            expect_eq: self.expect_attr_equals,
        }
    }

    /// Work left: twice the unread bytes, plus one while at an attribute value.
    pub open spec fn remaining(&self) -> int {
        2 * (self.input@.len() - self.pos) + if self.state is InAttrValue {
            1int
        } else {
            0int
        }
    }

    /// The state a context starts in.
    pub open spec fn start_state(flags: Html5Flags) -> Html5ParseState {
        match flags {
            Html5Flags::DataState => Html5ParseState::Data,
            Html5Flags::ValueNoQuote => Html5ParseState::InAttrValue { quote: None },
            Html5Flags::ValueSingleQuote => Html5ParseState::InAttrValue { quote: Some(39u8) },
            Html5Flags::ValueDoubleQuote => Html5ParseState::InAttrValue { quote: Some(34u8) },
            Html5Flags::ValueBackQuote => Html5ParseState::InAttrValue { quote: Some(96u8) },
        }
    }

    /// The cursor a context starts with.
    pub open spec fn start_cursor(flags: Html5Flags) -> Cursor {
        Cursor { pos: 0, state: Self::start_state(flags), is_close: false, expect_eq: false }
    }

    /// Start a tokenizer in the given context.
    pub fn new(input: &'a [u8], flags: Html5Flags) -> (r: Self)
        ensures
            r.wf(),
            r.input == input,
            r.pos == 0,
            r.state == Self::start_state(flags),
            !r.is_close,
            !r.expect_attr_equals,
            r.cursor() == Self::start_cursor(flags),
    {
        let state = match flags {
            Html5Flags::DataState => Html5ParseState::Data,
            Html5Flags::ValueNoQuote => Html5ParseState::InAttrValue { quote: None },
            Html5Flags::ValueSingleQuote => Html5ParseState::InAttrValue { quote: Some(39u8) },
            Html5Flags::ValueDoubleQuote => Html5ParseState::InAttrValue { quote: Some(34u8) },
            Html5Flags::ValueBackQuote => Html5ParseState::InAttrValue { quote: Some(96u8) },
        };
        assert(input@.len() == input.len());
        Html5State { input, pos: 0, state, is_close: false, expect_attr_equals: false }
    }

    /// The byte at the cursor, if any.
    pub fn current(&self) -> (r: Option<u8>)
        requires
            self.wf(),
        ensures
            self.pos < self.input@.len() ==> r == Some(self.input@[self.pos as int]),
            self.pos >= self.input@.len() ==> r is None,
    {
        if self.pos < self.input.len() {
            Some(self.input[self.pos])
        } else {
            None
        }
    }

    /// The token of `kind` made of `input[start..pos]`.
    fn emit(&self, kind: Html5Type, start: usize) -> (r: Html5Token<'a>)
        requires
            self.wf(),
            start <= self.pos,
        ensures
            r.kind == kind,
            r.value@ == self.input@.subrange(start as int, self.pos as int),
            slice_in(r.value@, self.input@, start as int, self.pos as int),
    {
        let input: &'a [u8] = self.input;
        let value: &'a [u8] = &input[start..self.pos];
        assert(value@ == self.input@.subrange(start as int, self.pos as int));
        Html5Token { kind, value }
    }

    /// The first index at or after `from` where a scan for `k` stops.
    fn scan_to(&self, from: usize, k: Stop) -> (r: usize)
        requires
            self.wf(),
            from <= self.input@.len(),
        ensures
            r == first_stop(self.input@, from as int, k),
            from <= r <= self.input@.len(),
    {
        let mut i = from;
        while i < self.input.len() && !stops_at(self.input[i], k)
            invariant
                from <= i <= self.input@.len(),
                first_stop(self.input@, from as int, k) == first_stop(self.input@, i as int, k),
            decreases self.input@.len() - i,
        {
            i += 1;
        }
        i
    }

    /// Skip HTML whitespace.
    fn skip_html_whitespace(&mut self)
        requires
            old(self).wf(),
        ensures
            moved_on(old(self), final(self)),
            final(self).pos == first_stop(old(self).input@, old(self).pos as int, Stop::NotSpace),
            final(self).state == old(self).state,
            final(self).is_close == old(self).is_close,
            final(self).expect_attr_equals == old(self).expect_attr_equals,
    {
        self.pos = self.scan_to(self.pos, Stop::NotSpace);
    }

    /// `input[pos..]` starts with `p`.
    fn at(&self, p: &[u8]) -> (r: bool)
        requires
            self.wf(),
        ensures
            r == (self.pos + p@.len() <= self.input@.len() && self.input@.subrange(
                self.pos as int,
                self.pos + p@.len(),
            ) == p@),
    {
        if p.len() > self.input.len() - self.pos {
            return false;
        }
        let n = self.input.len();
        let mut k: usize = 0;
        while k < p.len()
            invariant
                n == self.input@.len(),
                self.pos + p@.len() <= self.input@.len(),
                k <= p@.len(),
                forall|j: int| 0 <= j < k ==> self.input@[self.pos + j] == p@[j],
            decreases p@.len() - k,
        {
            if self.input[self.pos + k] != p[k] {
                assert(self.input@.subrange(self.pos as int, self.pos + p@.len())[k as int] != p@[k as int]);
                return false;
            }
            k += 1;
        }
        assert(self.input@.subrange(self.pos as int, self.pos + p@.len()) =~= p@);
        true
    }

    /// First index at or after `from` holding `b`.
    fn find_byte(&self, from: usize, b: u8) -> (r: Option<usize>)
        requires
            self.wf(),
            from <= self.input@.len(),
        ensures
            r matches Some(i) ==> i == first_stop(self.input@, from as int, Stop::Byte(b)) && from <= i
                < self.input@.len() && self.input@[i as int] == b,
            r is None ==> first_stop(self.input@, from as int, Stop::Byte(b)) == self.input@.len(),
    {
        let i = self.scan_to(from, Stop::Byte(b));
        proof {
            lemma_first_stop(self.input@, from as int, Stop::Byte(b));
        }
        if i < self.input.len() {
            Some(i)
        } else {
            None
        }
    }

    /// `input[pos..]` starts with `DOCTYPE` (any letter case).
    fn starts_with_doctype(&self) -> (r: bool)
        requires
            self.wf(),
        ensures
            r == (self.pos + 7 <= self.input@.len() && seq_eq_ic(
                self.input@.subrange(self.pos as int, self.pos + 7),
                doctype_word(),
            )),
    {
        let want: [u8; 7] = [68u8, 79, 67, 84, 89, 80, 69];
        if self.input.len() - self.pos < 7 {
            return false;
        }
        let n = self.input.len();
        let mut k: usize = 0;
        while k < 7
            invariant
                n == self.input@.len(),
                self.pos + 7 <= self.input@.len(),
                k <= 7,
                want@ == doctype_word(),
                forall|j: int| 0 <= j < k ==> #[trigger] eq_ic(self.input@[self.pos + j], want@[j]),
            decreases 7 - k,
        {
            if !byte_eq_ic(self.input[self.pos + k], want[k]) {
                proof {
                    let sub = self.input@.subrange(self.pos as int, self.pos + 7);
                    assert(!eq_ic(sub[k as int], doctype_word()[k as int]));
                }
                return false;
            }
            k += 1;
        }
        assert forall|j: int| 0 <= j < 7 implies #[trigger] eq_ic(
            self.input@.subrange(self.pos as int, self.pos + 7)[j],
            doctype_word()[j],
        ) by {
            assert(eq_ic(self.input@[self.pos + j], want@[j]));
        }
        true
    }

    /// Emit the next token, or `None` at the end of the input (or after `</>`).
    pub fn next_token(&mut self) -> (r: Option<Html5Token<'a>>)
        requires
            old(self).wf(),
        ensures
            moved_on(old(self), final(self)),
            produced(old(self), final(self), r, next(old(self).input@, old(self).cursor())),
            token_within(r, final(self), old(self).pos as int),
            doctype_ok(r),
            r is Some ==> final(self).remaining() < old(self).remaining(),
            old(self).pos >= old(self).input@.len() ==> r is None,
    {
        if self.pos >= self.input.len() {
            return None;
        }
        match self.state {
            Html5ParseState::InTag => self.next_in_tag(),
            Html5ParseState::Data => self.next_in_data(),
            Html5ParseState::InAttrValue { quote } => self.next_in_attr_value(quote),
        }
    }

    /// Next token inside a tag.
    fn next_in_tag(&mut self) -> (r: Option<Html5Token<'a>>)
        requires
            old(self).wf(),
            old(self).state == Html5ParseState::InTag,
        ensures
            moved_on(old(self), final(self)),
            produced(old(self), final(self), r, in_tag(old(self).input@, old(self).cursor())),
            token_within(r, final(self), old(self).pos as int),
            doctype_ok(r),
            r is Some ==> final(self).pos > old(self).pos && !(final(self).state is InAttrValue),
    {
        self.skip_html_whitespace();
        let c = match self.current() {
            Some(c) => c,
            None => return None,
        };
        if c == 47 {
            self.handle_slash_in_tag()
        } else if c == 62 {
            Some(self.tag_close())
        } else if c == 61 && self.expect_attr_equals {
            self.attr_value()
        } else {
            self.attr_name()
        }
    }

    /// Next token in text data.
    fn next_in_data(&mut self) -> (r: Option<Html5Token<'a>>)
        requires
            old(self).wf(),
            old(self).pos < old(self).input@.len(),
            old(self).state == Html5ParseState::Data,
        ensures
            moved_on(old(self), final(self)),
            produced(old(self), final(self), r, in_data(old(self).input@, old(self).cursor())),
            token_within(r, final(self), old(self).pos as int),
            doctype_ok(r),
            r is Some ==> final(self).pos > old(self).pos && !(final(self).state is InAttrValue),
    {
        if self.input[self.pos] == 60 {
            self.pos = self.pos + 1;
            return self.after_lt();
        }
        let start = self.pos;
        proof {
            lemma_first_stop(self.input@, start + 1, Stop::Byte(60));
        }
        self.pos = self.scan_to(self.pos, Stop::Byte(60));
        Some(self.emit(Html5Type::DataText, start))
    }

    /// An attribute value delimited by `quote` (or unquoted), then back inside the tag.
    fn next_in_attr_value(&mut self, quote: Option<u8>) -> (r: Option<Html5Token<'a>>)
        requires
            old(self).wf(),
        ensures
            moved_on(old(self), final(self)),
            produced(old(self), final(self), r, attr_value_body(old(self).input@, old(self).cursor(), quote)),
            token_within(r, final(self), old(self).pos as int),
            doctype_ok(r),
            r is Some,
            final(self).state == Html5ParseState::InTag,
    {
        let start = self.pos;
        match quote {
            Some(q) => {
                self.pos = self.scan_to(self.pos, Stop::Byte(q));
                let t = self.emit(Html5Type::AttrValue, start);
                if self.pos < self.input.len() {
                    self.pos = self.pos + 1;
                }
                self.state = Html5ParseState::InTag;
                Some(t)
            },
            None => {
                self.pos = self.scan_to(self.pos, Stop::ValueEnd);
                let t = self.emit(Html5Type::AttrValue, start);
                self.state = Html5ParseState::InTag;
                Some(t)
            },
        }
    }

    /// What follows a `<` (the cursor is just past it).
    #[verifier::rlimit(40)]
    fn after_lt(&mut self) -> (r: Option<Html5Token<'a>>)
        requires
            old(self).wf(),
            old(self).pos >= 1,
            old(self).state == Html5ParseState::Data,
        ensures
            moved_on(old(self), final(self)),
            produced(old(self), final(self), r, after_lt(old(self).input@, old(self).cursor())),
            token_within(r, final(self), old(self).pos - 1),
            doctype_ok(r),
            !(final(self).state is InAttrValue),
    {
        let first = match self.current() {
            Some(b) => b,
            None => return None,
        };
        if first == 33 {
            self.pos = self.pos + 1;
            if self.current() == Some(45u8) {
                self.pos = self.pos + 1;
                if self.current() == Some(45u8) {
                    self.pos = self.pos + 1;
                    return Some(self.read_comment());
                }
            }
            let cdata: [u8; 7] = [91u8, 67, 68, 65, 84, 65, 91];
            proof {
                assert(cdata@ =~= cdata_word());
            }
            if self.at(cdata.as_slice()) {
                self.pos = self.pos + 7;
                return Some(self.read_cdata());
            }
            if self.starts_with_doctype() {
                let ghost p = self.pos as int;
                let ghost inp = self.input@;
                let value = self.take_until_gt();
                proof {
                    assert forall|k: int| p <= k < p + 7 implies !stops(#[trigger] inp[k], Stop::Byte(62)) by {
                        assert(eq_ic(inp.subrange(p, p + 7)[k - p], doctype_word()[k - p]));
                    }
                    lemma_first_stop_past(inp, p, 7, Stop::Byte(62));
                    assert(value@.subrange(0, 7) =~= inp.subrange(p, p + 7));
                }
                return Some(Html5Token { kind: Html5Type::DocType, value });
            }
            return Some(self.bogus_comment());
        }
        if first == 47 {
            self.pos = self.pos + 1;
            if self.current() == Some(62u8) {
                self.pos = self.pos + 1;
                self.state = Html5ParseState::Data;
                return None;
            }
            let is_letter = match self.current() {
                Some(b) => is_alpha(b),
                None => false,
            };
            if is_letter {
                self.is_close = true;
                return Some(self.read_tag_name());
            }
            self.is_close = false;
            return Some(self.bogus_comment());
        }
        if first == 63 {
            self.pos = self.pos + 1;
            return Some(self.bogus_comment());
        }
        if first == 37 {
            self.pos = self.pos + 1;
            let value = self.take_until_pct_gt();
            self.state = Html5ParseState::Data;
            return Some(Html5Token { kind: Html5Type::TagComment, value });
        }
        if is_alpha(first) || first == 0 {
            return Some(self.read_tag_name());
        }
        self.state = Html5ParseState::Data;
        Some(self.emit(Html5Type::DataText, self.pos - 1))
    }

    /// A tag name (open or close).
    fn read_tag_name(&mut self) -> (r: Html5Token<'a>)
        requires
            old(self).wf(),
            !(old(self).state is InAttrValue),
        ensures
            moved_on(old(self), final(self)),
            produced(old(self), final(self), Some(r), tag_name(old(self).input@, old(self).cursor())),
            slice_in(r.value@, final(self).input@, old(self).pos as int, final(self).pos as int),
            !(final(self).state is InAttrValue),
            r.kind != Html5Type::DocType,
    {
        let start = self.pos;
        let e = self.scan_to(start, Stop::TagNameEnd(self.is_close));
        proof {
            lemma_first_stop(self.input@, start as int, Stop::TagNameEnd(self.is_close));
        }
        self.pos = e;
        if e >= self.input.len() {
            let name = self.emit(Html5Type::TagNameOpen, start);
            self.state = Html5ParseState::InTag;
            self.is_close = false;
            return name;
        }
        let b = self.input[e];
        if is_html_whitespace(b) {
            let name = self.emit(Html5Type::TagNameOpen, start);
            self.skip_html_whitespace();
            self.state = Html5ParseState::InTag;
            self.is_close = false;
            name
        } else if b == 47 && !self.is_close {
            let name = self.emit(Html5Type::TagNameOpen, start);
            self.state = Html5ParseState::InTag;
            name
        } else if self.is_close {
            let name = self.emit(Html5Type::TagClose, start);
            self.pos = self.pos + 1;
            self.state = Html5ParseState::Data;
            self.is_close = false;
            name
        } else {
            let name = self.emit(Html5Type::TagNameOpen, start);
            self.state = Html5ParseState::InTag;
            name
        }
    }

    /// A comment body, up to `-->` or `-!>` (NUL bytes may stand between the dashes).
    fn read_comment(&mut self) -> (r: Html5Token<'a>)
        requires
            old(self).wf(),
            !(old(self).state is InAttrValue),
        ensures
            moved_on(old(self), final(self)),
            produced(old(self), final(self), Some(r), comment(old(self).input@, old(self).cursor())),
            slice_in(r.value@, final(self).input@, old(self).pos as int, final(self).pos as int),
            !(final(self).state is InAttrValue),
            r.kind != Html5Type::DocType,
    {
        let start = self.pos;
        let n = self.input.len();
        let mut scan = self.pos;
        while scan <= n
            invariant
                self.wf(),
                self.input == old(self).input,
                self.pos == old(self).pos,
                self.state == old(self).state,
                self.is_close == old(self).is_close,
                self.expect_attr_equals == old(self).expect_attr_equals,
                start == old(self).pos,
                n == self.input@.len(),
                start <= scan <= n,
                comment_close(self.input@, start as int) == comment_close(self.input@, scan as int),
            ensures
                self.wf(),
                self.input == old(self).input,
                self.pos == old(self).pos,
                self.state == old(self).state,
                self.is_close == old(self).is_close,
                self.expect_attr_equals == old(self).expect_attr_equals,
                n == self.input@.len(),
                comment_close(self.input@, start as int) is None,
            decreases n + 1 - scan,
        {
            let abs = match self.find_byte(scan, 45u8) {
                Some(i) => i,
                None => break,
            };
            if n - abs < 3 {
                break;
            }
            let o = self.scan_to(abs + 1, Stop::NotNul);
            if o >= n {
                break;
            }
            let ch = self.input[o];
            if ch != 45 && ch != 33 {
                scan = abs + 1;
                continue;
            }
            if !(o + 1 < n && self.input[o + 1] == 62) {
                scan = abs + 1;
                continue;
            }
            let input: &'a [u8] = self.input;
            let body: &'a [u8] = &input[start..abs];
            assert(body@ == self.input@.subrange(start as int, abs as int));
            self.pos = o + 2;
            self.state = Html5ParseState::Data;
            return Html5Token { kind: Html5Type::TagComment, value: body };
        }
        self.pos = n;
        self.emit(Html5Type::TagComment, start)
    }

    /// A CDATA body, up to `]]>`.
    fn read_cdata(&mut self) -> (r: Html5Token<'a>)
        requires
            old(self).wf(),
            !(old(self).state is InAttrValue),
        ensures
            moved_on(old(self), final(self)),
            produced(old(self), final(self), Some(r), cdata(old(self).input@, old(self).cursor())),
            slice_in(r.value@, final(self).input@, old(self).pos as int, final(self).pos as int),
            !(final(self).state is InAttrValue),
            r.kind != Html5Type::DocType,
    {
        let start = self.pos;
        let n = self.input.len();
        let mut scan = self.pos;
        while scan <= n
            invariant
                self.wf(),
                self.input == old(self).input,
                self.pos == old(self).pos,
                self.state == old(self).state,
                self.is_close == old(self).is_close,
                self.expect_attr_equals == old(self).expect_attr_equals,
                start == old(self).pos,
                n == self.input@.len(),
                start <= scan <= n,
                cdata_close(self.input@, start as int) == cdata_close(self.input@, scan as int),
            ensures
                self.wf(),
                self.input == old(self).input,
                self.pos == old(self).pos,
                self.state == old(self).state,
                self.is_close == old(self).is_close,
                self.expect_attr_equals == old(self).expect_attr_equals,
                n == self.input@.len(),
                cdata_close(self.input@, start as int) is None,
            decreases n + 1 - scan,
        {
            let abs = match self.find_byte(scan, 93u8) {
                Some(i) => i,
                None => break,
            };
            if n - abs >= 3 && self.input[abs + 1] == 93 && self.input[abs + 2] == 62 {
                let input: &'a [u8] = self.input;
                let value: &'a [u8] = &input[start..abs];
                assert(value@ == self.input@.subrange(start as int, abs as int));
                self.pos = abs + 3;
                self.state = Html5ParseState::Data;
                return Html5Token { kind: Html5Type::DataText, value };
            }
            scan = abs + 1;
        }
        self.pos = n;
        self.emit(Html5Type::DataText, start)
    }

    /// A bogus comment, up to `>`.
    fn bogus_comment(&mut self) -> (r: Html5Token<'a>)
        requires
            old(self).wf(),
            !(old(self).state is InAttrValue),
        ensures
            moved_on(old(self), final(self)),
            produced(old(self), final(self), Some(r), bogus_comment(old(self).input@, old(self).cursor())),
            slice_in(r.value@, final(self).input@, old(self).pos as int, final(self).pos as int),
            !(final(self).state is InAttrValue),
            r.kind != Html5Type::DocType,
    {
        let start = self.pos;
        match self.find_byte(start, 62u8) {
            Some(idx) => {
                let input: &'a [u8] = self.input;
                let body: &'a [u8] = &input[start..idx];
                assert(body@ == self.input@.subrange(start as int, idx as int));
                self.pos = idx + 1;
                self.state = Html5ParseState::Data;
                Html5Token { kind: Html5Type::TagComment, value: body }
            },
            None => {
                self.pos = self.input.len();
                self.emit(Html5Type::TagComment, start)
            },
        }
    }

    /// A `/` inside a tag: `/>` ends a self-closing tag; otherwise an attribute name.
    fn handle_slash_in_tag(&mut self) -> (r: Option<Html5Token<'a>>)
        requires
            old(self).wf(),
            old(self).pos < old(self).input@.len(),
            old(self).state == Html5ParseState::InTag,
        ensures
            moved_on(old(self), final(self)),
            produced(old(self), final(self), r, slash_in_tag(old(self).input@, old(self).cursor())),
            token_within(r, final(self), old(self).pos as int),
            doctype_ok(r),
            r is Some ==> final(self).pos > old(self).pos && !(final(self).state is InAttrValue),
    {
        let slash = self.pos;
        self.pos = self.pos + 1;
        self.skip_html_whitespace();
        if self.current() == Some(62u8) {
            self.pos = self.pos + 1;
            let t = self.emit(Html5Type::TagNameSelfClose, slash);
            self.state = Html5ParseState::Data;
            return Some(t);
        }
        self.attr_name()
    }

    /// The `>` closing a tag.
    fn tag_close(&mut self) -> (r: Html5Token<'a>)
        requires
            old(self).wf(),
            old(self).pos < old(self).input@.len(),
        ensures
            moved_on(old(self), final(self)),
            produced(old(self), final(self), Some(r), tag_close(old(self).cursor())),
            slice_in(r.value@, final(self).input@, old(self).pos as int, final(self).pos as int),
            final(self).pos > old(self).pos,
            final(self).state == Html5ParseState::Data,
            r.kind != Html5Type::DocType,
    {
        let start = self.pos;
        self.pos = self.pos + 1;
        self.state = Html5ParseState::Data;
        self.expect_attr_equals = false;
        self.emit(Html5Type::TagNameClose, start)
    }

    /// An attribute name (at least one byte, up to a delimiter).
    fn attr_name(&mut self) -> (r: Option<Html5Token<'a>>)
        requires
            old(self).wf(),
            old(self).state == Html5ParseState::InTag,
        ensures
            moved_on(old(self), final(self)),
            produced(old(self), final(self), r, attr_name(old(self).input@, old(self).cursor())),
            token_within(r, final(self), old(self).pos as int),
            doctype_ok(r),
            r is Some ==> final(self).pos > old(self).pos && final(self).state == Html5ParseState::InTag,
    {
        if self.pos >= self.input.len() {
            return None;
        }
        let start = self.pos;
        self.pos = self.scan_to(self.pos + 1, Stop::NameEnd);
        self.expect_attr_equals = true;
        Some(self.emit(Html5Type::AttrName, start))
    }

    /// An attribute value after `=` (quoted or not).
    fn attr_value(&mut self) -> (r: Option<Html5Token<'a>>)
        requires
            old(self).wf(),
            old(self).pos < old(self).input@.len(),
        ensures
            moved_on(old(self), final(self)),
            produced(old(self), final(self), r, attr_value(old(self).input@, old(self).cursor())),
            token_within(r, final(self), old(self).pos as int),
            doctype_ok(r),
            r is Some ==> final(self).pos > old(self).pos && final(self).state == Html5ParseState::InTag,
    {
        self.expect_attr_equals = false;
        self.pos = self.pos + 1;
        self.skip_html_whitespace();
        let c = match self.current() {
            Some(c) => c,
            None => return None,
        };
        let quote = if c == 39 || c == 34 || c == 96 {
            self.pos = self.pos + 1;
            Some(c)
        } else {
            None
        };
        self.state = Html5ParseState::InAttrValue { quote };
        self.next_in_attr_value(quote)
    }

    /// Body up to `>` (exclusive); `>` is consumed if present.
    fn take_until_gt(&mut self) -> (r: &'a [u8])
        requires
            old(self).wf(),
        ensures
            moved_on(old(self), final(self)),
            final(self).state == old(self).state,
            final(self).is_close == old(self).is_close,
            final(self).expect_attr_equals == old(self).expect_attr_equals,
            slice_in(r@, final(self).input@, old(self).pos as int, final(self).pos as int),
            ({
                let g = first_stop(old(self).input@, old(self).pos as int, Stop::Byte(62));
                &&& r@ == old(self).input@.subrange(old(self).pos as int, g)
                &&& final(self).pos == if g < old(self).input@.len() {
                    g + 1
                } else {
                    g
                }
            }),
    {
        let start = self.pos;
        self.pos = self.scan_to(self.pos, Stop::Byte(62));
        let t = self.emit(Html5Type::DocType, start);
        if self.pos < self.input.len() {
            self.pos = self.pos + 1;
        }
        t.value
    }

    /// Body up to `%>` (exclusive); `%>` is consumed if present.
    fn take_until_pct_gt(&mut self) -> (r: &'a [u8])
        requires
            old(self).wf(),
        ensures
            moved_on(old(self), final(self)),
            final(self).state == old(self).state,
            final(self).is_close == old(self).is_close,
            final(self).expect_attr_equals == old(self).expect_attr_equals,
            slice_in(r@, final(self).input@, old(self).pos as int, final(self).pos as int),
            ({
                let e = pct_end(old(self).input@, old(self).pos as int);
                &&& r@ == old(self).input@.subrange(old(self).pos as int, e)
                &&& final(self).pos == if e < old(self).input@.len() {
                    e + 2
                } else {
                    e
                }
            }),
    {
        let start = self.pos;
        let end: [u8; 2] = [37u8, 62];
        while self.pos < self.input.len() && !self.at(end.as_slice())
            invariant
                moved_on(old(self), self),
                self.state == old(self).state,
                self.is_close == old(self).is_close,
                self.expect_attr_equals == old(self).expect_attr_equals,
                start == old(self).pos,
                end@ == seq![37u8, 62],
                pct_end(self.input@, start as int) == pct_end(self.input@, self.pos as int),
            decreases self.input@.len() - self.pos,
        {
            proof {
                if self.pos + 2 <= self.input@.len() && self.input@[self.pos as int] == 37
                    && self.input@[self.pos + 1] == 62 {
                    assert(self.input@.subrange(self.pos as int, self.pos + 2) =~= end@);
                }
            }
            self.pos = self.pos + 1;
        }
        proof {
            if self.pos < self.input@.len() {
                assert(self.input@.subrange(self.pos as int, self.pos + 2)[0] == self.input@[self.pos as int]);
                assert(self.input@.subrange(self.pos as int, self.pos + 2)[1] == self.input@[self.pos + 1]);
            }
        }
        let t = self.emit(Html5Type::TagComment, start);
        if self.at(end.as_slice()) {
            self.pos = self.pos + 2;
        }
        t.value
    }
}

} // verus!
