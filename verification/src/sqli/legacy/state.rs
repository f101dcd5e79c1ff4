//! `SqliState`: the legacy tokenizer / folder state for one input.
use vstd::prelude::*;
use crate::sqli::legacy::consts::{
    BYTE_NULL, FLAG_QUOTE_DOUBLE, FLAG_QUOTE_NONE, FLAG_QUOTE_SINGLE, FLAG_SQL_ANSI, TT_NONE,
};
use crate::sqli::legacy::helpers::{flag2_delimiter, spec_flag2_delimiter};
use crate::sqli::legacy::lex::{
    empty_tok, lemma_lex_run_end, lemma_sat16_add, lemma_string_scan_end, lex_next, lex_run, lex_step, sat16,
    string_scan,
};
use crate::sqli::legacy::parse::dispatch;
use crate::sqli::legacy::token::{canon_token, SqliToken};

verus! {

/// Parser state for one input.
pub struct SqliState<'a> {
    /// Raw input bytes (never mutated).
    pub input: &'a [u8],
    /// Cached input length.
    pub length: usize,
    /// Flags (quote context + SQL dialect).
    pub flags: u32,
    /// Current byte offset.
    pub pos: usize,
    /// Token buffer (five folded tokens plus lookahead).
    pub token_vec: [SqliToken; 8],
    /// Index into `token_vec` of the token being built.
    pub current_idx: usize,
    /// Fingerprint bytes (built after folding).
    pub fingerprint: [u8; 5],
    /// Length of valid fingerprint bytes.
    pub fingerprint_len: u8,
    /// `--[not-white]` comments seen (ANSI).
    pub stats_comment_ddx: u16,
    /// `#` operator/comment occurrences.
    pub stats_comment_hash: u16,
    /// Tokens folded away.
    pub stats_folds: u16,
    /// Total tokens emitted.
    pub stats_tokens: u16,
}

/// The tokenizer's part of a state: the token slots, the input position
/// and the token, comment and fold statistics.
pub struct Lx {
    pub w: Seq<SqliToken>,
    pub lpos: int,
    pub tokens: int,
    pub hash: int,
    pub ddx: int,
    pub folds: int,
}

/// Eight empty token slots.
pub open spec fn empty_window() -> Seq<SqliToken> {
    Seq::new(8, |_i: int| canon_token(empty_tok()))
}

/// `tokenize` into slot `idx` from `x`: whether a token was found, and the
/// tokenizer's part of the state afterwards.
pub open spec fn tok_next(input: Seq<u8>, flags: u32, x: Lx, idx: int) -> (bool, Lx) {
    if input.len() == 0 {
        (false, x)
    } else if x.lpos == 0 && SqliState::quote_context(flags) {
        let (e, t) = string_scan(input, 0, 0, spec_flag2_delimiter(flags), empty_tok());
        (true, Lx { w: x.w.update(idx, canon_token(t)), lpos: e, tokens: sat16(x.tokens + 1), ..x })
    } else {
        let st = lex_next(input, flags, x.lpos, empty_tok());
        let more = st.tok.category != TT_NONE;
        (
            more,
            Lx {
                w: x.w.update(idx, canon_token(st.tok)),
                lpos: st.end,
                tokens: if more {
                    sat16(x.tokens + 1)
                } else {
                    x.tokens
                },
                hash: sat16(x.hash + st.hash),
                ddx: sat16(x.ddx + st.ddx),
                folds: x.folds,
            },
        )
    }
}

/// Reading a token from a position within the input stays within it, and
/// a token that is found has consumed at least one byte.
pub proof fn lemma_tok_next_progress(input: Seq<u8>, flags: u32, x: Lx, idx: int)
    requires
        0 <= x.lpos <= input.len(),
        0 <= idx < x.w.len(),
    ensures
        ({
            let (more, y) = tok_next(input, flags, x, idx);
            &&& x.lpos <= y.lpos <= input.len()
            &&& more ==> x.lpos < y.lpos
            &&& y.w.len() == x.w.len()
        }),
{
    if input.len() > 0 {
        if x.lpos == 0 && SqliState::quote_context(flags) {
            lemma_string_scan_end(input, 0, 0, spec_flag2_delimiter(flags), empty_tok());
        } else {
            lemma_lex_run_end(input, flags, x.lpos, empty_tok(), (input.len() - x.lpos) as nat);
        }
    }
}

impl<'a> SqliState<'a> {
    /// The tokenizer's part of the state.
    pub open spec fn lx(&self) -> Lx {
        Lx {
            w: self.token_vec@,
            lpos: self.pos as int,
            tokens: self.stats_tokens as int,
            hash: self.stats_comment_hash as int,
            ddx: self.stats_comment_ddx as int,
            folds: self.stats_folds as int,
        }
    }

    /// The state's indices and token lengths are in range.
    pub open spec fn wf(&self) -> bool {
        &&& self.length == self.input@.len()
        &&& self.length <= isize::MAX
        &&& self.pos <= self.length
        &&& self.current_idx < 8
        &&& forall|i: int| 0 <= i < 8 ==> (#[trigger] self.token_vec@[i]).wf()
        &&& self.fingerprint_len <= 5
    }

    /// `other` works on the same input, flags and current slot as `self`.
    pub open spec fn same_frame(&self, other: &SqliState<'a>) -> bool {
        &&& self.input == other.input
        &&& self.length == other.length
        &&& self.flags == other.flags
        &&& self.current_idx == other.current_idx
    }

    /// The token in the current slot.
    pub open spec fn spec_current(&self) -> SqliToken {
        self.token_vec@[self.current_idx as int]
    }

    /// The flags that a state is created with (`0` selects `QUOTE_NONE | SQL_ANSI`).
    pub open spec fn effective_flags(flags: u32) -> u32 {
        if flags == 0 {
            FLAG_QUOTE_NONE | FLAG_SQL_ANSI
        } else {
            flags
        }
    }

    /// A fresh state for `input` and `flags`.
    pub open spec fn is_fresh(&self, input: &'a [u8], flags: u32) -> bool {
        &&& self.wf()
        &&& self.input == input
        &&& self.flags == Self::effective_flags(flags)
        &&& self.pos == 0
        &&& self.current_idx == 0
        &&& self.fingerprint_len == 0
        &&& self.fingerprint@ == seq![0u8, 0, 0, 0, 0]
        &&& self.stats_comment_ddx == 0
        &&& self.stats_comment_hash == 0
        &&& self.stats_folds == 0
        &&& self.stats_tokens == 0
        &&& forall|i: int| 0 <= i < 8 ==> (#[trigger] self.token_vec@[i]).is_empty_token()
        &&& self.token_vec@ == empty_window()
    }

    /// The flags simulate a quote that is open before the input.
    pub open spec fn quote_context(flags: u32) -> bool {
        flags & FLAG_QUOTE_SINGLE != 0 || flags & FLAG_QUOTE_DOUBLE != 0
    }

    /// Create a new state for `input` with `flags`.
    ///
    /// If `flags == 0` the default `QUOTE_NONE | SQL_ANSI` is used.
    pub fn new(input: &'a [u8], flags: u32) -> (r: Self)
        requires
            input@.len() <= isize::MAX,
        ensures
            r.is_fresh(input, flags),
            r.lx() == (Lx { w: empty_window(), lpos: 0, tokens: 0, hash: 0, ddx: 0, folds: 0 }),
    {
        let flags = if flags == 0 { FLAG_QUOTE_NONE | FLAG_SQL_ANSI } else { flags };
        let e = SqliToken::empty();
        proof {
            e.lemma_canonical();
            assert(e.model() == empty_tok()) by {
                assert(e.spec_val() =~= Seq::<u8>::empty());
            }
        }
        let r = SqliState {
            input,
            length: input.len(),
            flags,
            pos: 0,
            token_vec: [e, e, e, e, e, e, e, e],
            current_idx: 0,
            fingerprint: [0u8, 0, 0, 0, 0],
            fingerprint_len: 0,
            stats_comment_ddx: 0,
            stats_comment_hash: 0,
            stats_folds: 0,
            stats_tokens: 0,
        };
        assert(r.token_vec@ =~= empty_window());
        r
    }

    /// Re-initialize with the same input but new flags.
    pub fn reset(&mut self, flags: u32)
        requires
            old(self).wf(),
        ensures
            final(self).is_fresh(old(self).input, flags),
    {
        let input = self.input;
        *self = Self::new(input, flags);
    }

    /// Copy of the current token.
    pub fn current(&self) -> (r: SqliToken)
        requires
            self.wf(),
        ensures
            r == self.spec_current(),
            r.wf(),
    {
        self.token_vec[self.current_idx]
    }

    /// Replace the current token.
    pub fn set_current(&mut self, tok: SqliToken)
        requires
            old(self).wf(),
            tok.wf(),
        ensures
            final(self).wf(),
            final(self).same_frame(old(self)),
            final(self).pos == old(self).pos,
            final(self).token_vec@ == old(self).token_vec@.update(old(self).current_idx as int, tok),
            final(self).fingerprint == old(self).fingerprint,
            final(self).fingerprint_len == old(self).fingerprint_len,
            final(self).stats_tokens == old(self).stats_tokens,
            final(self).stats_folds == old(self).stats_folds,
            final(self).stats_comment_ddx == old(self).stats_comment_ddx,
            final(self).stats_comment_hash == old(self).stats_comment_hash,
    {
        let idx = self.current_idx;
        self.token_vec[idx] = tok;
    }

    /// Emit the next token into the current slot, or return `false` at the end.
    ///
    /// The slot is cleared first. At position 0 under a quote flag the token is
    /// the string that the simulated quote opens; otherwise it is the first
    /// token that the parser steps from the current position leave.
    pub fn tokenize(&mut self) -> (r: bool)
        requires
            old(self).wf(),
        ensures
            final(self).wf(),
            final(self).same_frame(old(self)),
            final(self).pos >= old(self).pos,
            r ==> final(self).pos > old(self).pos,
            !r ==> final(self).pos == final(self).length,
            forall|i: int|
                0 <= i < 8 && i != old(self).current_idx ==> final(self).token_vec@[i]
                    == old(self).token_vec@[i],
            final(self).fingerprint == old(self).fingerprint,
            final(self).fingerprint_len == old(self).fingerprint_len,
            final(self).stats_folds == old(self).stats_folds,
            (r, final(self).lx()) == tok_next(old(self).input@, old(self).flags, old(self).lx(), old(self).current_idx as int),
            final(self).stats_tokens == if r {
                sat16(old(self).stats_tokens + 1)
            } else {
                old(self).stats_tokens as int
            },
            old(self).length == 0 ==> !r && final(self).token_vec == old(self).token_vec
                && final(self).stats_comment_hash == old(self).stats_comment_hash
                && final(self).stats_comment_ddx == old(self).stats_comment_ddx,
            old(self).length > 0 && old(self).pos == 0 && Self::quote_context(old(self).flags) ==> r && (final(self).pos as int, final(self).spec_current().model())
                == string_scan(old(self).input@, 0, 0, spec_flag2_delimiter(old(self).flags), empty_tok())
                && final(self).spec_current() == canon_token(final(self).spec_current().model())
                && final(self).stats_comment_hash == old(self).stats_comment_hash
                && final(self).stats_comment_ddx == old(self).stats_comment_ddx,
            old(self).length > 0 && !(old(self).pos == 0 && Self::quote_context(old(self).flags)) ==> ({
                let st = lex_next(old(self).input@, old(self).flags, old(self).pos as int, empty_tok());
                &&& r == (st.tok.category != TT_NONE)
                &&& final(self).pos == st.end
                &&& final(self).spec_current().model() == st.tok
                &&& final(self).spec_current() == canon_token(st.tok)
                &&& final(self).stats_comment_hash == sat16(old(self).stats_comment_hash + st.hash)
                &&& final(self).stats_comment_ddx == sat16(old(self).stats_comment_ddx + st.ddx)
            }),
    {
        if self.length == 0 {
            return false;
        }
        let e = SqliToken::empty();
        self.set_current(e);
        proof {
            assert(e.spec_val() =~= Seq::<u8>::empty());
        }
        if self.pos == 0 && ((self.flags & FLAG_QUOTE_SINGLE) != 0 || (self.flags & FLAG_QUOTE_DOUBLE) != 0) {
            let delim = flag2_delimiter(self.flags);
            let input = self.input;
            let length = self.length;
            let mut t = self.current();
            let np = t.parse_string_core(input, length, 0, 0, delim);
            self.set_current(t);
            self.pos = np;
            self.stats_tokens = self.stats_tokens.saturating_add(1);
            proof {
                t.lemma_canonical();
                assert(self.token_vec@ =~= old(self).token_vec@.update(old(self).current_idx as int, t));
            }
            return true;
        }
        let ghost pos0 = self.pos as int;
        let ghost h0 = self.stats_comment_hash as int;
        let ghost d0 = self.stats_comment_ddx as int;
        let ghost mut fuel: nat = (self.length - self.pos) as nat;
        let ghost mut acc_h: nat = 0;
        let ghost mut acc_d: nat = 0;
        while self.pos < self.length
            invariant
                self.wf(),
                self.same_frame(old(self)),
                self.pos >= old(self).pos,
                forall|i: int|
                    0 <= i < 8 && i != old(self).current_idx ==> self.token_vec@[i]
                        == old(self).token_vec@[i],
                self.fingerprint == old(self).fingerprint,
                self.fingerprint_len == old(self).fingerprint_len,
                self.stats_folds == old(self).stats_folds,
                self.stats_tokens == old(self).stats_tokens,
                pos0 == old(self).pos,
                old(self).length > 0,
                !(old(self).pos == 0 && Self::quote_context(old(self).flags)),
                h0 == old(self).stats_comment_hash,
                d0 == old(self).stats_comment_ddx,
                fuel >= self.length - self.pos,
                self.spec_current().model().category == TT_NONE,
                self.spec_current().canonical(),
                self.stats_comment_hash == sat16(h0 + acc_h),
                self.stats_comment_ddx == sat16(d0 + acc_d),
                ({
                    let whole = lex_next(self.input@, self.flags, pos0, empty_tok());
                    let rest = lex_run(self.input@, self.flags, self.pos as int, self.spec_current().model(), fuel);
                    &&& whole.end == rest.end
                    &&& whole.tok == rest.tok
                    &&& whole.hash == acc_h + rest.hash
                    &&& whole.ddx == acc_d + rest.ddx
                }),
            decreases self.length - self.pos,
        {
            let ghost pre = self.spec_current().model();
            let ghost pre_pos = self.pos as int;
            let np = dispatch(self);
            let ghost st = lex_step(self.input@, self.flags, pre_pos, pre);
            proof {
                lemma_sat16_add(h0 + acc_h, st.hash as int);
                lemma_sat16_add(d0 + acc_d, st.ddx as int);
                acc_h = acc_h + st.hash;
                acc_d = acc_d + st.ddx;
                fuel = (fuel - 1) as nat;
            }
            self.pos = np;
            proof {
                self.spec_current().lemma_canonical();
            }
            if self.current().category != BYTE_NULL {
                self.stats_tokens = self.stats_tokens.saturating_add(1);
                proof {
                    assert(self.token_vec@ =~= old(self).token_vec@.update(
                        old(self).current_idx as int,
                        self.spec_current(),
                    ));
                }
                return true;
            }
        }
        proof {
            self.spec_current().lemma_canonical();
            assert(self.token_vec@ =~= old(self).token_vec@.update(old(self).current_idx as int, self.spec_current()));
        }
        false
    }

    /// A `MySQL` reparse is needed (an ANSI `--x` comment or a `#` was seen).
    pub fn reparse_as_mysql(&self) -> (r: bool)
        ensures
            r == (self.stats_comment_ddx != 0 || self.stats_comment_hash != 0),
    {
        self.stats_comment_ddx != 0 || self.stats_comment_hash != 0
    }
}

} // verus!
