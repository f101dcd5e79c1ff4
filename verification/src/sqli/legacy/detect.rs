//! Fingerprinting, blacklist and whitelist checks, and the multi-pass detector.
use vstd::prelude::*;
use crate::engine::ascii::upper;
use crate::engine::bytes::{memchr, memmem_find, occurs_at};
use crate::sqli::legacy::consts::{
    BYTE_DOUBLE, BYTE_NULL, BYTE_SINGLE, BYTE_TICK, FLAG_QUOTE_DOUBLE, FLAG_QUOTE_NONE, FLAG_QUOTE_SINGLE,
    FLAG_SQL_ANSI, FLAG_SQL_MYSQL, TT_BAREWORD, TT_COMMENT, TT_EVIL, TT_FINGERPRINT, TT_KEYWORD,
    TT_LOGIC_OPERATOR, TT_NUMBER, TT_OPERATOR, TT_STRING, TT_UNION, TT_VARIABLE,
};
use crate::sqli::legacy::data::{search_keyword, spec_search_keyword};
use crate::sqli::legacy::helpers::{matches_upper, spec_upper_eq};
use crate::sqli::legacy::fold::recat;
use crate::sqli::legacy::passes::{
    detecting_pass, first_evil_from, fold_from, fp_slots, has_evil, lemma_first_evil, pass_hits, pass_of,
    pass_wants_mysql, tick_fixed,
};
use crate::sqli::legacy::state::{empty_window, Lx, SqliState};
use crate::sqli::legacy::token::SqliToken;

verus! {

/// The key under which a fingerprint is listed: `0` followed by the
/// fingerprint in upper case.
pub open spec fn blacklist_key(fp: Seq<u8>) -> Seq<u8> {
    seq![48u8] + fp.map_values(|c: u8| upper(c))
}

/// `fp` is a listed injection fingerprint.
pub open spec fn is_blacklisted(fp: Seq<u8>) -> bool {
    fp.len() >= 1 && spec_search_keyword(blacklist_key(fp)) == TT_FINGERPRINT
}

/// `sp_password`.
pub open spec fn sp_password() -> Seq<u8> {
    seq![115u8, 112, 95, 112, 97, 115, 115, 119, 111, 114, 100]
}

/// `input` contains `sp_password` (case-sensitive).
pub open spec fn has_sp_password(input: Seq<u8>) -> bool {
    exists|j: int| occurs_at(input, j, sp_password())
}

/// The pass flags under which the detector fingerprints `input`: both SQL
/// dialects unquoted, then in a `'` context when `input` holds a `'`, then in a
/// `"` context (`MySQL`) when it holds a `"`.
pub open spec fn pass_flags(flags: u32, input: Seq<u8>) -> bool {
    ||| flags == FLAG_QUOTE_NONE | FLAG_SQL_ANSI
    ||| flags == FLAG_QUOTE_NONE | FLAG_SQL_MYSQL
    ||| input.contains(BYTE_SINGLE) && flags == FLAG_QUOTE_SINGLE | FLAG_SQL_ANSI
    ||| input.contains(BYTE_SINGLE) && flags == FLAG_QUOTE_SINGLE | FLAG_SQL_MYSQL
    ||| input.contains(BYTE_DOUBLE) && flags == FLAG_QUOTE_DOUBLE | FLAG_SQL_MYSQL
}

/// First value byte of `t`, if any.
pub open spec fn first_byte(t: SqliToken) -> Option<u8> {
    if t.spec_val().len() > 0 {
        Some(t.spec_val()[0])
    } else {
        None
    }
}

/// The byte of `input` at `i`, if any.
pub open spec fn byte_at(input: Seq<u8>, i: int) -> Option<u8> {
    if 0 <= i < input.len() {
        Some(input[i])
    } else {
        None
    }
}

/// A number followed by a `/`-comment is an injection only when other
/// tokens follow (`tokens` counts the tokens seen), or when the number is
/// followed in the input by a control byte or space, `/*` or `--`.
pub open spec fn number_comment_confirms(input: Seq<u8>, w: Seq<SqliToken>, tokens: int) -> bool {
    let n = w[0].len as int;
    if tokens > 2 {
        true
    } else if n < input.len() {
        let ch = input[n];
        ||| ch <= 32
        ||| ch == 47 && byte_at(input, n + 1) == Some(42u8)
        ||| ch == 45 && byte_at(input, n + 1) == Some(45u8)
    } else {
        false
    }
}

/// Whitelist rules for a two-token fingerprint `fp` of tokens `w`.
pub open spec fn two_token_confirms(input: Seq<u8>, w: Seq<SqliToken>, fp: Seq<u8>, tokens: int) -> bool {
    if fp[1] == TT_UNION {
        tokens != 2
    } else if first_byte(w[1]) == Some(35u8) {
        false
    } else if w[0].category == TT_BAREWORD && w[1].category == TT_COMMENT && first_byte(w[1]) != Some(47u8) {
        false
    } else if w[0].category == TT_NUMBER && w[1].category == TT_COMMENT && first_byte(w[1]) != Some(47u8) {
        true
    } else if w[0].category == TT_NUMBER && w[1].category == TT_COMMENT {
        number_comment_confirms(input, w, tokens)
    } else if w[1].len > 2 && first_byte(w[1]) == Some(45u8) {
        false
    } else {
        true
    }
}

/// Whitelist rules for a three-token fingerprint `fp` of tokens `w`.
pub open spec fn three_token_confirms(w: Seq<SqliToken>, fp: Seq<u8>, tokens: int) -> bool {
    let f0 = fp[0];
    let f1 = fp[1];
    let f2 = fp[2];
    if f0 == TT_STRING && (f1 == TT_OPERATOR || f1 == TT_LOGIC_OPERATOR) && f2 == TT_STRING {
        w[0].str_open == BYTE_NULL && w[2].str_close == BYTE_NULL && w[0].str_close == w[2].str_open
    } else if tokens == 3 && ((f0 == TT_STRING && f1 == TT_LOGIC_OPERATOR && f2 == TT_BAREWORD) || (f0
        == TT_BAREWORD && f1 == TT_LOGIC_OPERATOR && f2 == TT_NUMBER) || (f0 == TT_NUMBER && f1
        == TT_LOGIC_OPERATOR && f2 == TT_NUMBER) || (f0 == TT_NUMBER && f1 == TT_LOGIC_OPERATOR && f2
        == TT_VARIABLE) || (f0 == TT_NUMBER && f1 == TT_LOGIC_OPERATOR && f2 == TT_STRING)) {
        false
    } else if w[1].category == TT_KEYWORD && (w[1].len < 5 || !spec_upper_eq(
        seq![73u8, 78, 84, 79],
        w[1].spec_val().subrange(0, 4),
    )) {
        false
    } else {
        true
    }
}

/// The whitelist does not excuse the fingerprint `fp` of tokens `w` over
/// `input` (`tokens` counts the tokens seen): it stays an injection.
pub open spec fn whitelist_confirms(input: Seq<u8>, w: Seq<SqliToken>, fp: Seq<u8>, tokens: int) -> bool {
    let len = fp.len() as int;
    if len > 1 && fp[len - 1] == TT_COMMENT && has_sp_password(input) {
        true
    } else if len == 2 {
        two_token_confirms(input, w, fp, tokens)
    } else if len == 3 {
        three_token_confirms(w, fp, tokens)
    } else {
        true
    }
}

impl<'a> SqliState<'a> {
    /// The fingerprint bytes built by the last pass.
    pub open spec fn spec_fingerprint(&self) -> Seq<u8> {
        self.fingerprint@.subrange(0, self.fingerprint_len as int)
    }

    /// Each fingerprint byte is the category of the token at its index.
    pub open spec fn fingerprint_of_tokens(&self) -> bool {
        forall|k: int|
            0 <= k < self.fingerprint_len ==> #[trigger] self.fingerprint@[k] == self.token_vec@[k].category
    }

    /// The whitelist does not excuse this state's fingerprint.
    pub open spec fn confirms(&self) -> bool {
        whitelist_confirms(self.input@, self.token_vec@, self.spec_fingerprint(), self.stats_tokens as int)
    }

    /// Fingerprint the input under `flags`: reset, fold, and record the
    /// category of each folded token (an evil token makes the fingerprint `X`).
    pub fn sqli_fingerprint(&mut self, flags: u32)
        requires
            old(self).wf(),
        ensures
            final(self).wf(),
            final(self).input == old(self).input,
            final(self).flags == SqliState::effective_flags(flags),
            final(self).fingerprint_of_tokens(),
            final(self).token_vec@ == pass_of(old(self).input@, flags).w,
            final(self).spec_fingerprint() == pass_of(old(self).input@, flags).fp,
            final(self).fingerprint@ == pass_of(old(self).input@, flags).slots,
            final(self).stats_tokens == pass_of(old(self).input@, flags).tokens,
            final(self).stats_comment_hash == pass_of(old(self).input@, flags).hash,
            final(self).stats_comment_ddx == pass_of(old(self).input@, flags).ddx,
            final(self).stats_folds == pass_of(old(self).input@, flags).folds,
            final(self).fingerprint_len <= 5,
            ({
                let (n, x) = fold_from(
                    old(self).input@,
                    SqliState::effective_flags(flags),
                    Lx { w: empty_window(), lpos: 0, tokens: 0, hash: 0, ddx: 0, folds: 0 },
                );
                let w = tick_fixed(x.w, n);
                &&& 0 <= n
                &&& has_evil(w, n) ==> final(self).fingerprint_len == 1 && final(self).fingerprint@[0] == TT_EVIL
                &&& !has_evil(w, n) ==> final(self).fingerprint_len == (if n < 5 { n } else { 5 })
            }),
    {
        self.reset(flags);
        let ghost fresh = self.lx();
        let length = self.fold();
        let ghost folded = fold_from(self.input@, self.flags, fresh);
        let ghost n = length as int;
        let ghost x = self.lx();
        assert(folded == (n, x));
        assert(fresh == (Lx { w: empty_window(), lpos: 0, tokens: 0, hash: 0, ddx: 0, folds: 0 }));
        if length > 2 {
            let last_idx = length - 1;
            if self.tc(last_idx) == TT_BAREWORD && self.token_str_open(last_idx) == BYTE_TICK && self.token_len(
                last_idx,
            ) == 0 && self.token_str_close(last_idx) == BYTE_NULL {
                self.set_tc(last_idx, TT_COMMENT);
            }
        }
        let ghost w = self.token_vec@;
        assert(w == tick_fixed(x.w, n));
        self.fingerprint_len = 0;
        let ghost input = self.input;
        let ghost fl = self.flags;
        let mut i: usize = 0;
        while i < length
            invariant
                self.wf(),
                self.input == input,
                self.flags == fl,
                input == old(self).input,
                fl == SqliState::effective_flags(flags),
                length <= 6,
                i <= length,
                self.fingerprint_len as int == if i < 5 { i as int } else { 5 },
                self.fingerprint_of_tokens(),
                self.token_vec@ == w,
                n == length as int,
                w == tick_fixed(x.w, n),
                (n, x) == fold_from(
                    old(self).input@,
                    SqliState::effective_flags(flags),
                    Lx { w: empty_window(), lpos: 0, tokens: 0, hash: 0, ddx: 0, folds: 0 },
                ),
                self.stats_tokens == x.tokens,
                self.stats_comment_hash == x.hash,
                self.stats_comment_ddx == x.ddx,
                self.stats_folds == x.folds,
                forall|j: int| 0 <= j < i ==> w[j].category != TT_EVIL,
                forall|k: int|
                    0 <= k < 5 ==> #[trigger] self.fingerprint@[k] == (if k < i && k < 5 {
                        w[k].category
                    } else {
                        0u8
                    }),
            decreases length - i,
        {
            let c = self.tc(i);
            if c == TT_EVIL {
                self.set_fp(0, TT_EVIL);
                self.fingerprint_len = 1;
                self.set_tc(0, TT_EVIL);
                proof {
                    assert(w[i as int].category == TT_EVIL);
                    assert(has_evil(w, n));
                    lemma_first_evil(w, 0, n);
                    assert(first_evil_from(w, 0, n) == i);
                    assert(self.fingerprint@ =~= fp_slots(w, n));
                    assert(self.spec_fingerprint() =~= seq![TT_EVIL]);
                    assert(self.token_vec@ =~= w.update(0, recat(w[0], TT_EVIL)));
                }
                return;
            }
            if i < 5 {
                self.set_fp(i, c);
                self.fingerprint_len = (i + 1) as u8;
            }
            i += 1;
        }
        proof {
            assert(!has_evil(w, n));
            lemma_first_evil(w, 0, n);
            assert(first_evil_from(w, 0, n) == n);
            assert(self.fingerprint@ =~= fp_slots(w, n));
            let k = if n < 5 { n } else { 5 };
            assert(self.spec_fingerprint() =~= Seq::new(k as nat, |j: int| w[j].category));
        }
    }

    /// The fingerprint is listed as an injection.
    pub fn blacklist(&self) -> (r: bool)
        requires
            self.wf(),
        ensures
            r == is_blacklisted(self.spec_fingerprint()),
    {
        let length = self.fingerprint_len as usize;
        if length < 1 {
            return false;
        }
        let mut buf = [0u8; 6];
        buf[0] = 48u8;
        let ghost fp = self.spec_fingerprint();
        let mut i: usize = 0;
        while i < length
            invariant
                self.wf(),
                length <= 5,
                length == fp.len(),
                fp == self.spec_fingerprint(),
                i <= length,
                buf@[0] == 48u8,
                forall|k: int| 0 <= k < i ==> buf@[k + 1] == upper(fp[k]),
            decreases length - i,
        {
            let mut ch = self.fp(i);
            assert(ch == fp[i as int]);
            if ch >= 97 && ch <= 122 {
                ch = ch - 32;
            }
            buf[i + 1] = ch;
            i += 1;
        }
        let bs: &[u8] = buf.as_slice();
        let key: &[u8] = &bs[0..length + 1];
        assert(key@ =~= blacklist_key(fp));
        search_keyword(key) == TT_FINGERPRINT
    }

    /// Whitelist rules for two-token fingerprints.
    fn two_token_rules(&self) -> (r: bool)
        requires
            self.wf(),
            self.fingerprint_len == 2,
        ensures
            r == two_token_confirms(self.input@, self.token_vec@, self.spec_fingerprint(), self.stats_tokens as int),
    {
        if self.fp(1) == TT_UNION {
            return self.stats_tokens != 2;
        }
        let b1 = self.token_val_byte(1, 0);
        if b1 == Some(35u8) {
            return false;
        }
        let t0 = self.tc(0);
        let t1 = self.tc(1);
        if t0 == TT_BAREWORD && t1 == TT_COMMENT && b1 != Some(47u8) {
            return false;
        }
        if t0 == TT_NUMBER && t1 == TT_COMMENT && b1 != Some(47u8) {
            return true;
        }
        if t0 == TT_NUMBER && t1 == TT_COMMENT {
            if self.stats_tokens > 2 {
                return true;
            }
            let num_len = self.token_len(0);
            if num_len < self.input.len() {
                let ch = self.input[num_len];
                if ch <= 32 {
                    return true;
                }
                let next = if num_len + 1 < self.input.len() {
                    Some(self.input[num_len + 1])
                } else {
                    None
                };
                if ch == 47 && next == Some(42u8) {
                    return true;
                }
                if ch == 45 && next == Some(45u8) {
                    return true;
                }
            }
            return false;
        }
        if self.token_len(1) > 2 && b1 == Some(45u8) {
            return false;
        }
        true
    }

    /// Whitelist rules for three-token fingerprints.
    fn three_token_rules(&self) -> (r: bool)
        requires
            self.wf(),
            self.fingerprint_len == 3,
        ensures
            r == three_token_confirms(self.token_vec@, self.spec_fingerprint(), self.stats_tokens as int),
    {
        let fp0 = self.fp(0);
        let fp1 = self.fp(1);
        let fp2 = self.fp(2);
        if (fp0 == TT_STRING && fp1 == TT_OPERATOR && fp2 == TT_STRING) || (fp0 == TT_STRING && fp1
            == TT_LOGIC_OPERATOR && fp2 == TT_STRING) {
            if self.token_str_open(0) == BYTE_NULL && self.token_str_close(2) == BYTE_NULL
                && self.token_str_close(0) == self.token_str_open(2) {
                return true;
            }
            return false;
        }
        let is_benign_3 = (fp0 == TT_STRING && fp1 == TT_LOGIC_OPERATOR && fp2 == TT_BAREWORD) || (fp0
            == TT_BAREWORD && fp1 == TT_LOGIC_OPERATOR && fp2 == TT_NUMBER) || (fp0 == TT_NUMBER && fp1
            == TT_LOGIC_OPERATOR && fp2 == TT_NUMBER) || (fp0 == TT_NUMBER && fp1 == TT_LOGIC_OPERATOR && fp2
            == TT_VARIABLE) || (fp0 == TT_NUMBER && fp1 == TT_LOGIC_OPERATOR && fp2 == TT_STRING);
        if is_benign_3 && self.stats_tokens == 3 {
            return false;
        }
        if self.tc(1) == TT_KEYWORD {
            let val = self.token_val_slice(1);
            let len = self.token_len(1);
            if len < 5 || !matches_upper(&[73u8, 78, 84, 79], &val[0..4]) {
                return false;
            }
        }
        true
    }

    /// The whitelist does not excuse the fingerprint (`true` confirms an injection).
    pub fn not_whitelist(&self) -> (r: bool)
        requires
            self.wf(),
        ensures
            r == self.confirms(),
    {
        let length = self.fingerprint_len as usize;
        if length > 1 && self.fp(length - 1) == TT_COMMENT && contains_sp_password(self.input) {
            return true;
        }
        if length == 2 {
            self.two_token_rules()
        } else if length == 3 {
            self.three_token_rules()
        } else {
            true
        }
    }

    /// The fingerprint is listed and the whitelist does not excuse it.
    pub fn check_fingerprint(&self) -> (r: bool)
        requires
            self.wf(),
        ensures
            r == (is_blacklisted(self.spec_fingerprint()) && self.confirms()),
    {
        self.blacklist() && self.not_whitelist()
    }

    /// Fingerprint under `flags` and check the result.
    fn run_pass(&mut self, flags: u32) -> (r: bool)
        requires
            old(self).wf(),
        ensures
            final(self).wf(),
            final(self).input == old(self).input,
            final(self).flags == SqliState::effective_flags(flags),
            final(self).fingerprint_of_tokens(),
            r == (is_blacklisted(final(self).spec_fingerprint()) && final(self).confirms()),
            r == pass_hits(old(self).input@, flags),
            final(self).spec_fingerprint() == pass_of(old(self).input@, flags).fp,
            final(self).fingerprint@ == pass_of(old(self).input@, flags).slots,
            (final(self).stats_comment_ddx != 0 || final(self).stats_comment_hash != 0) == pass_wants_mysql(
                old(self).input@,
                flags,
            ),
    {
        self.sqli_fingerprint(flags);
        self.check_fingerprint()
    }

    /// Multi-pass detection: unquoted ANSI, then `MySQL` if an ANSI-only
    /// comment form was seen, then a `'` context (both dialects) if the input
    /// holds a `'`, then a `"` context (`MySQL`) if it holds a `"`. Stops at the
    /// first pass whose fingerprint is confirmed.
    pub fn check(&mut self) -> (r: bool)
        requires
            old(self).wf(),
        ensures
            final(self).wf(),
            final(self).input == old(self).input,
            old(self).length == 0 ==> !r,
            r ==> is_blacklisted(final(self).spec_fingerprint()),
            r ==> final(self).confirms(),
            r ==> pass_flags(final(self).flags, final(self).input@),
            r ==> final(self).fingerprint_of_tokens(),
            r == detecting_pass(old(self).input@) is Some,
            r ==> final(self).spec_fingerprint() == pass_of(old(self).input@, detecting_pass(old(self).input@)->0).fp,
            r ==> final(self).fingerprint@ == pass_of(old(self).input@, detecting_pass(old(self).input@)->0).slots,
    {
        if self.length == 0 {
            return false;
        }
        if self.run_pass(FLAG_QUOTE_NONE | FLAG_SQL_ANSI) {
            return true;
        }
        if self.reparse_as_mysql() {
            if self.run_pass(FLAG_QUOTE_NONE | FLAG_SQL_MYSQL) {
                return true;
            }
        }
        let single = memchr(BYTE_SINGLE, self.input).is_some();
        if single {
            if self.run_pass(FLAG_QUOTE_SINGLE | FLAG_SQL_ANSI) {
                return true;
            }
            if self.reparse_as_mysql() {
                if self.run_pass(FLAG_QUOTE_SINGLE | FLAG_SQL_MYSQL) {
                    return true;
                }
            }
        }
        let double = memchr(BYTE_DOUBLE, self.input).is_some();
        if double {
            if self.run_pass(FLAG_QUOTE_DOUBLE | FLAG_SQL_MYSQL) {
                return true;
            }
        }
        false
    }
}

/// `input` contains `sp_password` (case-sensitive).
pub fn contains_sp_password(input: &[u8]) -> (r: bool)
    ensures
        r == has_sp_password(input@),
{
    let needle: [u8; 11] = [115u8, 112, 95, 112, 97, 115, 115, 119, 111, 114, 100];
    let found = memmem_find(input, needle.as_slice());
    assert(needle@ =~= sp_password());
    found.is_some()
}

/// Legacy `SQLi` detection: `(detected, fingerprint bytes, fingerprint length)`.
/// The fingerprint is reported only when an injection is detected.
pub fn is_sqli(input: &[u8]) -> (r: (bool, [u8; 5], u8))
    requires
        input@.len() <= isize::MAX,
    ensures
        input@.len() == 0 ==> !r.0,
        r.0 ==> 1 <= r.2 <= 5 && is_blacklisted(r.1@.subrange(0, r.2 as int)),
        !r.0 ==> r.2 == 0 && r.1@ == seq![0u8, 0, 0, 0, 0],
        r.0 == detecting_pass(input@) is Some,
        r.0 ==> r.1@.subrange(0, r.2 as int) == pass_of(input@, detecting_pass(input@)->0).fp,
        r.0 ==> r.1@ == pass_of(input@, detecting_pass(input@)->0).slots,
{
    if input.len() == 0 {
        return (false, [0u8; 5], 0);
    }
    let mut state = SqliState::new(input, 0);
    let detected = state.check();
    if detected {
        (true, state.fingerprint, state.fingerprint_len)
    } else {
        (false, [0u8; 5], 0)
    }
}

} // verus!
