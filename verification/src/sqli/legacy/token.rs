//! `SqliToken`: one token of the legacy tokenizer.
use vstd::prelude::*;
use crate::engine::bytes::memchr;
use crate::sqli::legacy::consts::{BYTE_NULL, TOKEN_SIZE, TT_OPERATOR, TT_STRING};
use crate::sqli::legacy::helpers::{
    is_backslash_escaped, is_double_delimiter_escaped, spec_upper_eq, matches_upper,
};
use crate::sqli::legacy::lex::{
    lemma_byte_occurs, lemma_find_first_at, lemma_find_none, string_close, string_scan, Tok,
};

verus! {

/// One SQL token: category + position/length + optional string delimiters.
///
/// Token values are copied into `val` (a fixed buffer) so that merging two
/// tokens needs no borrowed storage.
#[derive(Clone, Copy)]
pub struct SqliToken {
    /// Byte offset in original input.
    pub pos: usize,
    /// Significant length of `val` (at most `TOKEN_SIZE - 1`).
    pub len: usize,
    /// `@` count for type `v` (1 = `@`, 2 = `@@`).
    pub count: u8,
    /// Token type byte (see `consts::TT_*`).
    pub category: u8,
    /// Opening delimiter for strings (`0` = none / simulated).
    pub str_open: u8,
    /// Closing delimiter for strings (`0` = unclosed).
    pub str_close: u8,
    /// Value bytes (only the first `len` are significant).
    pub val: [u8; 32],
}

/// `length` capped to what a token value can hold.
pub open spec fn cap_len(length: int) -> int {
    if length < TOKEN_SIZE - 1 {
        length
    } else {
        TOKEN_SIZE - 1
    }
}

/// The value buffer holding the first `last` bytes of `value`, zero-filled.
pub open spec fn val_of(value: Seq<u8>, last: int) -> Seq<u8> {
    Seq::new(TOKEN_SIZE as nat, |i: int| if i < last { value[i] } else { 0u8 })
}

/// The token whose fields are those of `m`, with the value buffer
/// holding `m`'s value bytes and zeros after them.
pub open spec fn canon_token(m: Tok) -> SqliToken {
    SqliToken {
        pos: m.pos as usize,
        len: m.val.len() as usize,
        count: m.count,
        category: m.category,
        str_open: m.str_open,
        str_close: m.str_close,
        val: choose|a: [u8; 32]| a@ == val_of(m.val, m.val.len() as int),
    }
}

impl SqliToken {
    /// The token's length fits its value buffer.
    pub open spec fn wf(self) -> bool {
        self.len < TOKEN_SIZE
    }

    /// The significant value bytes.
    pub open spec fn spec_val(self) -> Seq<u8> {
        self.val@.subrange(0, self.len as int)
    }

    /// The token as the tokenizer's specification sees it.
    pub open spec fn model(self) -> Tok {
        Tok {
            category: self.category,
            pos: self.pos as int,
            val: self.spec_val(),
            count: self.count,
            str_open: self.str_open,
            str_close: self.str_close,
        }
    }

    /// The value buffer holds the significant bytes and zeros after them.
    pub open spec fn canonical(self) -> bool {
        self.val@ == val_of(self.spec_val(), self.len as int)
    }

    /// A well-formed canonical token is the canonical token of its model.
    pub proof fn lemma_canonical(self)
        requires
            self.wf(),
            self.canonical(),
        ensures
            self == canon_token(self.model()),
    {
        let m = self.model();
        let a = choose|a: [u8; 32]| a@ == val_of(m.val, m.val.len() as int);
        assert(self.val@ == val_of(m.val, m.val.len() as int));
        assert(a@ == val_of(m.val, m.val.len() as int));
        assert(a =~= self.val) by {
            assert forall|i: int| 0 <= i < 32 implies a[i] == self.val[i] by {
                assert(a@[i] == self.val@[i]);
            }
        }
    }

    /// The all-zero token.
    pub open spec fn is_empty_token(self) -> bool {
        &&& self.pos == 0
        &&& self.len == 0
        &&& self.count == 0
        &&& self.category == 0
        &&& self.str_open == 0
        &&& self.str_close == 0
    }

    /// The all-zero token.
    pub fn empty() -> (r: Self)
        ensures
            r.is_empty_token(),
            r.wf(),
            r.canonical(),
    {
        let r = SqliToken { pos: 0, len: 0, count: 0, category: 0, str_open: 0, str_close: 0, val: [0u8; 32] };
        assert(r.val@ =~= val_of(r.spec_val(), 0));
        r
    }

    /// Significant value slice (`val[..len]`).
    pub fn val_slice(&self) -> (r: &[u8])
        requires
            self.wf(),
        ensures
            r@ == self.spec_val(),
    {
        let s: &[u8] = self.val.as_slice();
        &s[0..self.len]
    }

    /// Set category and position, and copy the value truncated to `TOKEN_SIZE - 1` bytes.
    pub fn assign(&mut self, token_type: u8, pos: usize, length: usize, value: &[u8])
        requires
            value@.len() >= cap_len(length as int),
        ensures
            final(self).category == token_type,
            final(self).pos == pos,
            final(self).len == cap_len(length as int),
            final(self).val@ == val_of(value@, cap_len(length as int)),
            final(self).spec_val() == value@.subrange(0, cap_len(length as int)),
            final(self).count == old(self).count,
            final(self).str_open == old(self).str_open,
            final(self).str_close == old(self).str_close,
            final(self).wf(),
            final(self).canonical(),
    {
        let last = if length < TOKEN_SIZE - 1 { length } else { TOKEN_SIZE - 1 };
        self.category = token_type;
        self.pos = pos;
        self.len = last;
        let mut v = [0u8; 32];
        let mut i: usize = 0;
        while i < last
            invariant
                i <= last,
                last < TOKEN_SIZE,
                last <= value@.len(),
                forall|k: int| 0 <= k < i ==> v@[k] == value@[k],
                forall|k: int| i <= k < TOKEN_SIZE ==> v@[k] == 0u8,
            decreases last - i,
        {
            v[i] = value[i];
            i += 1;
        }
        self.val = v;
        proof {
            assert(self.val@ =~= val_of(value@, last as int));
            assert(self.spec_val() =~= value@.subrange(0, last as int));
            assert(val_of(self.spec_val(), last as int) =~= val_of(value@, last as int));
        }
    }

    /// Scan a quoted string whose body starts at `input[pos + offset]`, up to
    /// the first `delimiter` that is neither backslash-escaped nor doubled.
    ///
    /// Returns the new position (past the closing delimiter, or at the end).
    pub fn parse_string_core(
        &mut self,
        input: &[u8],
        length: usize,
        pos: usize,
        offset: usize,
        delimiter: u8,
    ) -> (r: usize)
        requires
            length == input@.len(),
            pos + offset <= length,
        ensures
            pos + offset <= r <= length,
            offset > 0 ==> r > pos,
            length > pos + offset ==> r > pos + offset,
            final(self).wf(),
            final(self).canonical(),
            (r as int, final(self).model()) == string_scan(
                input@,
                pos as int,
                offset as int,
                delimiter,
                old(self).model(),
            ),
    {
        if offset > 0 {
            self.str_open = delimiter;
        } else {
            self.str_open = BYTE_NULL;
        }
        let ghost base = self.model();
        let start = pos + offset;
        let haystack: &[u8] = &input[start..length];
        let ghost hay = haystack@;
        let ghost needle = seq![delimiter];
        let mut cursor: usize = 0;
        loop
            invariant
                start == pos + offset,
                start <= length,
                length == input@.len(),
                hay == haystack@,
                hay == input@.subrange(start as int, length as int),
                needle == seq![delimiter],
                haystack@.len() == length - start,
                cursor <= haystack@.len(),
                base == self.model(),
                base.str_open == if offset > 0 { delimiter } else { BYTE_NULL },
                base.count == old(self).count,
                base == (Tok { str_open: base.str_open, ..old(self).model() }),
                string_close(hay, delimiter, 0) == string_close(hay, delimiter, cursor as int),
            decreases haystack@.len() - cursor,
        {
            let remaining: &[u8] = &haystack[cursor..haystack.len()];
            match memchr(delimiter, remaining) {
                None => {
                    proof {
                        assert forall|j: int|
                            cursor <= j && j + needle.len() <= hay.len() implies #[trigger] hay.subrange(
                                j,
                                j + needle.len(),
                            ) != needle by {
                            lemma_byte_occurs(hay, delimiter, j);
                            assert(remaining@[j - cursor] == hay[j]);
                        }
                        lemma_find_none(hay, needle, cursor as int);
                    }
                    self.assign(TT_STRING, start, length - start, haystack);
                    self.str_close = BYTE_NULL;
                    proof {
                        let c = crate::sqli::legacy::token::cap_len((length - start) as int);
                        assert(haystack@.subrange(0, c) =~= input@.subrange(start as int, start + c));
                    }
                    return length;
                },
                Some(rel) => {
                    let abs = cursor + rel;
                    proof {
                        assert(hay[abs as int] == remaining@[rel as int]);
                        lemma_byte_occurs(hay, delimiter, abs as int);
                        assert forall|j: int|
                            cursor <= j < abs implies #[trigger] hay.subrange(j, j + needle.len()) != needle by {
                            lemma_byte_occurs(hay, delimiter, j);
                            assert(remaining@[j - cursor] == hay[j]);
                        }
                        lemma_find_first_at(hay, needle, cursor as int, abs as int);
                    }
                    let before: &[u8] = &haystack[0..abs];
                    if is_backslash_escaped(before) {
                        cursor = abs + 1;
                        continue;
                    }
                    let at_delim: &[u8] = &haystack[abs..haystack.len()];
                    if is_double_delimiter_escaped(at_delim) {
                        proof {
                            assert(at_delim@[0] == hay[abs as int]);
                            assert(at_delim@[1] == hay[abs + 1]);
                        }
                        cursor = abs + 2;
                        continue;
                    }
                    proof {
                        if abs + 1 < hay.len() {
                            assert(at_delim@[0] == hay[abs as int]);
                            assert(at_delim@[1] == hay[abs + 1]);
                        }
                    }
                    self.assign(TT_STRING, start, abs, haystack);
                    self.str_close = delimiter;
                    proof {
                        let c = crate::sqli::legacy::token::cap_len(abs as int);
                        assert(haystack@.subrange(0, c) =~= input@.subrange(start as int, start + c));
                    }
                    return start + abs + 1;
                },
            }
        }
    }

    /// The token is a unary operator: `+ - ! ~`, `!!`, or `NOT`.
    pub open spec fn spec_is_unary_op(self) -> bool {
        &&& self.category == TT_OPERATOR
        &&& if self.len == 1 {
            let ch = self.val@[0];
            ch == 43 || ch == 45 || ch == 33 || ch == 126
        } else if self.len == 2 {
            self.val@[0] == 33 && self.val@[1] == 33
        } else if self.len == 3 {
            spec_upper_eq(seq![78u8, 79, 84], self.spec_val())
        } else {
            false
        }
    }

    /// The token is a one-byte arithmetic operator: `* / + - %`.
    pub open spec fn spec_is_arithmetic_op(self) -> bool {
        &&& self.category == TT_OPERATOR
        &&& self.len == 1
        &&& {
            let ch = self.val@[0];
            ch == 42 || ch == 47 || ch == 43 || ch == 45 || ch == 37
        }
    }

    /// The token is a unary operator: `+ - ! ~`, `!!`, or `NOT`.
    pub fn is_unary_op(&self) -> (r: bool)
        requires
            self.wf(),
        ensures
            r == self.spec_is_unary_op(),
    {
        if self.category != TT_OPERATOR {
            return false;
        }
        if self.len == 1 {
            let ch = self.val[0];
            ch == 43 || ch == 45 || ch == 33 || ch == 126
        } else if self.len == 2 {
            self.val[0] == 33 && self.val[1] == 33
        } else if self.len == 3 {
            matches_upper(&[78u8, 79, 84], self.val_slice())
        } else {
            false
        }
    }

    /// The token is a one-byte arithmetic operator: `* / + - %`.
    pub fn is_arithmetic_op(&self) -> (r: bool)
        ensures
            r == self.spec_is_arithmetic_op(),
    {
        if self.category != TT_OPERATOR || self.len != 1 {
            return false;
        }
        let ch = self.val[0];
        ch == 42 || ch == 47 || ch == 43 || ch == 45 || ch == 37
    }
}

impl Default for SqliToken {
    fn default() -> (r: Self)
        ensures
            r.is_empty_token(),
            r.wf(),
    {
        SqliToken::empty()
    }
}

} // verus!
