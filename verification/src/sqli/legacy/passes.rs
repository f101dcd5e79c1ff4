//! A fingerprinting pass as a specification: the fold of the token stream,
//! the fingerprint it yields, and the passes of the detector.
use vstd::prelude::*;
use crate::sqli::legacy::consts::{
    BYTE_DOUBLE, BYTE_NULL, BYTE_SINGLE, BYTE_TICK, FLAG_QUOTE_DOUBLE, FLAG_QUOTE_NONE, FLAG_QUOTE_SINGLE,
    FLAG_SQL_ANSI, FLAG_SQL_MYSQL, MAX_TOKENS, TT_BACKSLASH, TT_BAREWORD, TT_COMMENT, TT_EVIL, TT_FUNCTION,
    TT_KEYWORD, TT_LPAREN, TT_NUMBER, TT_OPERATOR, TT_SQLTYPE, TT_TSQL, TT_VARIABLE,
};
use crate::sqli::legacy::detect::{is_blacklisted, whitelist_confirms};
use crate::sqli::legacy::fold::{
    five_collapse, recat, three_rule, three_step, two_rule, two_step, FoldAction, ThreeFold, TwoFold,
};
use crate::sqli::legacy::helpers::spec_upper_eq;
use crate::engine::ascii::upper;
use crate::sqli::legacy::lex::{empty_tok, sat16};
use crate::sqli::legacy::state::{empty_window, lemma_tok_next_progress, tok_next, Lx, SqliState};
use crate::sqli::legacy::token::{canon_token, SqliToken};

verus! {

/// The fold loop's variables: the tokenizer state, the number of tokens in
/// the window, its left edge, whether the input has more tokens, and the
/// last comment seen.
pub struct Fs {
    pub x: Lx,
    pub pos: int,
    pub left: int,
    pub more: bool,
    pub last: SqliToken,
}

/// Token slot 0 is filled until its token is not a comment, `(`, a SQL type
/// or a unary operator (or the input ends).
pub open spec fn fold_lead(input: Seq<u8>, flags: u32, x: Lx, fuel: nat) -> (bool, Lx)
    decreases fuel,
{
    let (more, y) = tok_next(input, flags, x, 0);
    if !more || fuel == 0 {
        (more, y)
    } else {
        let t = y.w[0];
        if t.category == TT_COMMENT || t.category == TT_LPAREN || t.category == TT_SQLTYPE || t.spec_is_unary_op() {
            fold_lead(input, flags, y, (fuel - 1) as nat)
        } else {
            (true, y)
        }
    }
}

/// More tokens are read into the window until it holds `need` tokens from
/// its left edge, is full, or the input ends; comments are set aside.
pub open spec fn fold_fill(input: Seq<u8>, flags: u32, f: Fs, need: int, fuel: nat) -> Fs
    decreases fuel,
{
    if !(f.more && f.pos <= MAX_TOKENS && f.pos - f.left < need) || fuel == 0 {
        f
    } else {
        let (m, y) = tok_next(input, flags, f.x, f.pos);
        let g = if !m {
            Fs { x: y, more: m, ..f }
        } else if y.w[f.pos].category == TT_COMMENT {
            Fs { x: y, more: m, last: y.w[f.pos], ..f }
        } else {
            Fs { x: y, more: m, last: recat(f.last, BYTE_NULL), pos: f.pos + 1, ..f }
        };
        fold_fill(input, flags, g, need, (fuel - 1) as nat)
    }
}

/// Enough steps for a fill from `f`: one per unread byte, and one more.
pub open spec fn fill_fuel(input: Seq<u8>, f: Fs) -> nat {
    (input.len() - f.x.lpos + 1) as nat
}

/// The end of folding: a trailing comment is kept as the last token, and at
/// most five tokens count.
pub open spec fn fold_finish(f: Fs) -> (int, Lx) {
    let keep = f.left < MAX_TOKENS && f.last.category == TT_COMMENT;
    let w = if keep {
        f.x.w.update(f.left, f.last)
    } else {
        f.x.w
    };
    let left = if keep {
        f.left + 1
    } else {
        f.left
    };
    (if left > MAX_TOKENS { MAX_TOKENS as int } else { left }, Lx { w, ..f.x })
}

/// `f` with the window `w`, left edge `left` and `pos` tokens.
pub open spec fn with_window(f: Fs, w: Seq<SqliToken>, left: int, pos: int) -> Fs {
    Fs { x: Lx { w, ..f.x }, left, pos, ..f }
}

/// `f` after a rule that counts `add` folds (the count saturates at 16 bits).
pub open spec fn counted(f: Fs, add: int) -> Fs {
    Fs { x: Lx { folds: sat16(f.x.folds + add), ..f.x }, ..f }
}

/// The window after the overflow check at the top of a pass: when the
/// window holds five or more tokens that form a collapsing pattern, it is cut
/// back (keeping the sixth token as the second when there is one).
pub open spec fn collapsed(f: Fs) -> Fs {
    if f.pos >= MAX_TOKENS && five_collapse(f.x.w) {
        if f.pos > MAX_TOKENS {
            with_window(f, f.x.w.update(1, f.x.w[5]), 0, 2)
        } else {
            Fs { pos: 1, left: 0, ..f }
        }
    } else {
        f
    }
}

/// Where one pass of the fold loop leads.
pub enum Turn {
    /// Folding ends with this many tokens and this tokenizer state.
    Done(int, Lx),
    /// The loop goes on with these variables.
    Next(Fs),
}

/// One pass of the fold loop from `f`.
pub open spec fn fold_pass(input: Seq<u8>, flags: u32, f: Fs) -> Turn {
    let f1 = collapsed(f);
    if !f1.more || f1.left >= MAX_TOKENS {
        let (n, x) = fold_finish(Fs { left: f1.pos, ..f1 });
        Turn::Done(n, x)
    } else {
        let f2 = fold_fill(input, flags, f1, 2, fill_fuel(input, f1));
        if f2.pos - f2.left < 2 {
            Turn::Next(Fs { left: f2.pos, ..f2 })
        } else {
            let (win, act) = two_step(f2.x.w, f2.left, f2.pos);
            let f3 = counted(with_window(f2, win.w, win.left, win.pos), win.add);
            match act {
                FoldAction::Continue => Turn::Next(f3),
                FoldAction::EarlyReturn(n) => Turn::Done(n as int, f3.x),
                FoldAction::FallThrough => {
                    let f4 = fold_fill(input, flags, f3, 3, fill_fuel(input, f3));
                    if f4.pos - f4.left < 3 {
                        Turn::Next(Fs { left: f4.pos, ..f4 })
                    } else {
                        let (win3, hit) = three_step(f4.x.w, f4.left, f4.pos);
                        let f5 = counted(with_window(f4, win3.w, win3.left, win3.pos), win3.add);
                        if hit {
                            Turn::Next(f5)
                        } else {
                            Turn::Next(Fs { left: f5.left + 1, ..f5 })
                        }
                    }
                },
            }
        }
    }
}

/// The loop's variables are in range: the left edge within the window of at
/// most six tokens, eight token slots, and a position within the input.
pub open spec fn fs_ok(input: Seq<u8>, f: Fs) -> bool {
    &&& 0 <= f.left <= f.pos <= MAX_TOKENS + 1
    &&& f.x.w.len() == 8
    &&& 0 <= f.x.lpos <= input.len()
}

/// 1 while the input may hold more tokens.
pub open spec fn more_rank(f: Fs) -> int {
    if f.more {
        1
    } else {
        0
    }
}

/// Bytes not yet read by the tokenizer.
pub open spec fn unread(input: Seq<u8>, x: Lx) -> int {
    if x.lpos < input.len() {
        input.len() - x.lpos
    } else {
        0
    }
}

/// A token that a rule rewrites in place while restarting at the left of the
/// window: a backslash, or a bare word holding `_`.
pub open spec fn restart_weight(t: SqliToken) -> nat {
    if t.category == TT_BACKSLASH || (t.category == TT_BAREWORD && t.spec_val().contains(95u8)) {
        1
    } else {
        0
    }
}

/// How often a token's category can still be rewritten in place: a keyword
/// may become a bare word, which may become a function, which may become a
/// T-SQL `IF`.
pub open spec fn rewrite_rank(t: SqliToken) -> nat {
    if t.category == TT_KEYWORD {
        3
    } else if t.category == TT_BAREWORD || t.category == TT_VARIABLE {
        2
    } else if t.category == TT_FUNCTION {
        1
    } else {
        0
    }
}

/// The sum of `weight` over the first `k` token slots.
pub open spec fn window_sum(w: Seq<SqliToken>, k: int, weight: spec_fn(SqliToken) -> nat) -> nat
    decreases k,
{
    if k <= 0 {
        0
    } else {
        window_sum(w, k - 1, weight) + weight(w[k - 1])
    }
}

/// Restart weight of the eight token slots.
pub open spec fn restart_sum(w: Seq<SqliToken>) -> int {
    window_sum(w, 8, |t: SqliToken| restart_weight(t)) as int
}

/// Rewrite rank of the eight token slots.
pub open spec fn rank_sum(w: Seq<SqliToken>) -> int {
    window_sum(w, 8, |t: SqliToken| rewrite_rank(t)) as int
}

/// The fold loop from `f`: the number of tokens and the tokenizer state at
/// the end. Each pass reads input, shrinks the window, spends a restarting
/// rewrite, moves the left edge on, or lowers a category's rank, so the loop
/// ends.
pub open spec fn fold_main(input: Seq<u8>, flags: u32, f: Fs) -> (int, Lx)
    decreases more_rank(f), unread(input, f.x), f.pos, restart_sum(f.x.w), MAX_TOKENS + 1 - f.left, rank_sum(f.x.w)
    when fs_ok(input, f)
{
    match fold_pass(input, flags, f) {
        Turn::Done(n, x) => (n, x),
        Turn::Next(g) => {
            proof {
                lemma_fold_pass_progress(input, flags, f);
            }
            fold_main(input, flags, g)
        },
    }
}

/// Window sums only look at their first `k` slots.
proof fn lemma_window_sum_prefix(a: Seq<SqliToken>, b: Seq<SqliToken>, k: int, weight: spec_fn(SqliToken) -> nat)
    requires
        forall|i: int| 0 <= i < k ==> a[i] == b[i],
    ensures
        window_sum(a, k, weight) == window_sum(b, k, weight),
    decreases k,
{
    if k > 0 {
        lemma_window_sum_prefix(a, b, k - 1, weight);
    }
}

/// Replacing one slot by a token of no greater (smaller) weight gives no
/// greater (a smaller) window sum.
proof fn lemma_window_sum_update(
    w: Seq<SqliToken>,
    k: int,
    j: int,
    t: SqliToken,
    weight: spec_fn(SqliToken) -> nat,
)
    requires
        0 <= j < k <= w.len(),
    ensures
        weight(t) <= weight(w[j]) ==> window_sum(w.update(j, t), k, weight) <= window_sum(w, k, weight),
        weight(t) < weight(w[j]) ==> window_sum(w.update(j, t), k, weight) < window_sum(w, k, weight),
    decreases k,
{
    let u = w.update(j, t);
    if k - 1 > j {
        lemma_window_sum_update(w, k - 1, j, t, weight);
        assert(u[k - 1] == w[k - 1]);
    } else {
        lemma_window_sum_prefix(u, w, k - 1, weight);
    }
}

/// A value equal, ignoring case, to an uppercase word without `_` holds no `_`.
proof fn lemma_upper_eq_no_underscore(word: Seq<u8>, v: Seq<u8>)
    requires
        spec_upper_eq(word, v),
        forall|k: int| 0 <= k < word.len() ==> word[k] != 95,
    ensures
        !v.contains(95u8),
{
    assert forall|k: int| 0 <= k < v.len() implies v[k] != 95 by {
        assert(word[k] == upper(v[k]));
    }
}

/// What filling the window does: the left edge stays, tokens are only
/// added, reading never un-ends the input, and a fill that has room to read
/// either reaches the end of the input or consumes input.
proof fn lemma_fill(input: Seq<u8>, flags: u32, f: Fs, need: int, fuel: nat)
    requires
        fs_ok(input, f),
    ensures
        ({
            let g = fold_fill(input, flags, f, need, fuel);
            &&& fs_ok(input, g)
            &&& g.left == f.left
            &&& f.pos <= g.pos
            &&& g.more ==> f.more
            &&& unread(input, g.x) <= unread(input, f.x)
            &&& !(f.more && f.pos <= MAX_TOKENS && f.pos - f.left < need) ==> g == f
            &&& (fuel >= 1 && f.more && f.pos <= MAX_TOKENS && f.pos - f.left < need) ==> (!g.more || unread(
                input,
                g.x,
            ) < unread(input, f.x))
        }),
    decreases fuel,
{
    if f.more && f.pos <= MAX_TOKENS && f.pos - f.left < need && fuel > 0 {
        lemma_tok_next_progress(input, flags, f.x, f.pos);
        let (m, y) = tok_next(input, flags, f.x, f.pos);
        let g1 = if !m {
            Fs { x: y, more: m, ..f }
        } else if y.w[f.pos].category == TT_COMMENT {
            Fs { x: y, more: m, last: y.w[f.pos], ..f }
        } else {
            Fs { x: y, more: m, last: recat(f.last, BYTE_NULL), pos: f.pos + 1, ..f }
        };
        lemma_fill(input, flags, g1, need, (fuel - 1) as nat);
    }
}

/// The in-place rewrites of the two-token rules lower the restart weight or
/// keep it and lower the rank; the others shrink the window; none leaves
/// the window out of range.
proof fn lemma_two_step_window(f: Fs)
    requires
        0 <= f.left,
        f.left + 2 <= f.pos <= MAX_TOKENS + 1,
        f.x.w.len() == 8,
    ensures
        ({
            let (win, act) = two_step(f.x.w, f.left, f.pos);
            &&& win.w.len() == 8
            &&& 0 <= win.left <= win.pos <= f.pos
            &&& win.pos == f.pos ==> restart_sum(win.w) <= restart_sum(f.x.w)
            &&& act is Continue && win.pos == f.pos ==> (restart_sum(win.w) < restart_sum(f.x.w) || (win.left
                == f.left && rank_sum(win.w) < rank_sum(f.x.w)))
            &&& act is FallThrough ==> win.pos == f.pos && (restart_sum(win.w) < restart_sum(f.x.w) || win.left
                == f.left)
        }),
{
    let w = f.x.w;
    let l = f.left;
    let rw = |t: SqliToken| restart_weight(t);
    let rr = |t: SqliToken| rewrite_rank(t);
    match two_rule(w, l) {
        TwoFold::MarkTsql => {
            lemma_window_sum_update(w, 8, l + 1, recat(w[l + 1], TT_TSQL), rw);
            lemma_window_sum_update(w, 8, l + 1, recat(w[l + 1], TT_TSQL), rr);
        },
        TwoFold::MarkFunction => {
            lemma_window_sum_update(w, 8, l, recat(w[l], TT_FUNCTION), rw);
            lemma_window_sum_update(w, 8, l, recat(w[l], TT_FUNCTION), rr);
        },
        TwoFold::InOperator => {
            let c = if w[l + 1].category == TT_LPAREN {
                TT_OPERATOR
            } else {
                TT_BAREWORD
            };
            if spec_upper_eq(seq![73u8, 78], w[l].spec_val()) {
                lemma_upper_eq_no_underscore(seq![73u8, 78], w[l].spec_val());
            } else {
                lemma_upper_eq_no_underscore(seq![78u8, 79, 84, 32, 73, 78], w[l].spec_val());
            }
            lemma_window_sum_update(w, 8, l, recat(w[l], c), rw);
            lemma_window_sum_update(w, 8, l, recat(w[l], c), rr);
        },
        TwoFold::LikeFunction => {
            lemma_window_sum_update(w, 8, l, recat(w[l], TT_FUNCTION), rw);
        },
        TwoFold::CollateType => {
            lemma_window_sum_update(w, 8, l + 1, recat(w[l + 1], TT_SQLTYPE), rw);
        },
        TwoFold::BackslashNumber => {
            lemma_window_sum_update(w, 8, l, recat(w[l], TT_NUMBER), rw);
        },
        TwoFold::BraceEvil => {
            lemma_window_sum_update(w, 8, l + 1, recat(w[l + 1], TT_EVIL), rw);
        },
        _ => {},
    }
}

/// The three-token rules either shrink the window or leave it as long, with
/// the same left edge and no greater restart weight.
proof fn lemma_three_step_window(f: Fs)
    requires
        0 <= f.left,
        f.left + 3 <= f.pos <= MAX_TOKENS + 1,
        f.x.w.len() == 8,
    ensures
        ({
            let (win, hit) = three_step(f.x.w, f.left, f.pos);
            &&& win.w.len() == 8
            &&& 0 <= win.left <= win.pos
            &&& hit ==> win.pos < f.pos
            &&& !hit ==> win.pos == f.pos && win.left == f.left && restart_sum(win.w) <= restart_sum(f.x.w)
        }),
{
    let w = f.x.w;
    let l = f.left;
    if three_rule(w, l) == ThreeFold::UserAsBareword {
        lemma_upper_eq_no_underscore(seq![85u8, 83, 69, 82], w[l].spec_val());
        lemma_window_sum_update(w, 8, l, recat(w[l], TT_BAREWORD), |t: SqliToken| restart_weight(t));
    }
}

/// Every pass that does not end folding leads to variables in range that
/// are smaller in the fold loop's measure.
pub proof fn lemma_fold_pass_progress(input: Seq<u8>, flags: u32, f: Fs)
    requires
        fs_ok(input, f),
    ensures
        fold_pass(input, flags, f) matches Turn::Next(g) ==> fs_ok(input, g) && decreases_to!(
            more_rank(f), unread(input, f.x), f.pos, restart_sum(f.x.w), MAX_TOKENS + 1 - f.left, rank_sum(f.x.w)
            => more_rank(g), unread(input, g.x), g.pos, restart_sum(g.x.w), MAX_TOKENS + 1 - g.left, rank_sum(g.x.w)
        ),
{
    let f1 = collapsed(f);
    if f1.more && f1.left < MAX_TOKENS {
        lemma_fill(input, flags, f1, 2, fill_fuel(input, f1));
        let f2 = fold_fill(input, flags, f1, 2, fill_fuel(input, f1));
        if f2.pos - f2.left >= 2 {
            lemma_two_step_window(f2);
            let (win, act) = two_step(f2.x.w, f2.left, f2.pos);
            let f3 = counted(with_window(f2, win.w, win.left, win.pos), win.add);
            if act is FallThrough {
                lemma_fill(input, flags, f3, 3, fill_fuel(input, f3));
                let f4 = fold_fill(input, flags, f3, 3, fill_fuel(input, f3));
                if f4.pos - f4.left >= 3 {
                    lemma_three_step_window(f4);
                }
            }
        }
    }
}

/// Folding from the tokenizer state `x`: the number of folded tokens and
/// the tokenizer state at the end.
pub open spec fn fold_from(input: Seq<u8>, flags: u32, x: Lx) -> (int, Lx) {
    let (more, x1) = fold_lead(input, flags, x, (input.len() - x.lpos + 1) as nat);
    if !more {
        (0, x1)
    } else {
        fold_main(
            input,
            flags,
            Fs { x: x1, pos: 1, left: 0, more: true, last: canon_token(empty_tok()) },
        )
    }
}

/// A last token that is an empty, unclosed backtick name reads as a comment.
pub open spec fn tick_fixed(w: Seq<SqliToken>, n: int) -> Seq<SqliToken> {
    if n > 2 && w[n - 1].category == TT_BAREWORD && w[n - 1].str_open == BYTE_TICK && w[n - 1].len == 0
        && w[n - 1].str_close == BYTE_NULL {
        w.update(n - 1, recat(w[n - 1], TT_COMMENT))
    } else {
        w
    }
}

/// Some of the first `n` tokens is evil.
pub open spec fn has_evil(w: Seq<SqliToken>, n: int) -> bool {
    exists|i: int| 0 <= i < n && #[trigger] w[i].category == TT_EVIL
}

/// The index of the first evil token among the first `n` from `i` (`n` when
/// there is none).
pub open spec fn first_evil_from(w: Seq<SqliToken>, i: int, n: int) -> int
    decreases n - i,
{
    if i >= n {
        n
    } else if w[i].category == TT_EVIL {
        i
    } else {
        first_evil_from(w, i + 1, n)
    }
}

/// The five fingerprint bytes a pass leaves: the category of each token
/// before the first evil one (five at most), then zeros; with an evil token
/// the first byte is `X`.
pub open spec fn fp_slots(w: Seq<SqliToken>, n: int) -> Seq<u8> {
    let e = first_evil_from(w, 0, n);
    Seq::new(
        5,
        |k: int|
            if has_evil(w, n) && k == 0 {
                TT_EVIL
            } else if k < e && k < 5 {
                w[k].category
            } else {
                0u8
            },
    )
}

/// The first evil token from `i` is the first one at or after `i`, and
/// there is none before it; without one it is `n`.
pub proof fn lemma_first_evil(w: Seq<SqliToken>, i: int, n: int)
    requires
        0 <= i <= n,
    ensures
        i <= first_evil_from(w, i, n) <= n,
        forall|j: int| i <= j < first_evil_from(w, i, n) ==> #[trigger] w[j].category != TT_EVIL,
        first_evil_from(w, i, n) < n ==> w[first_evil_from(w, i, n)].category == TT_EVIL,
    decreases n - i,
{
    if i < n && w[i].category != TT_EVIL {
        lemma_first_evil(w, i + 1, n);
    }
}

/// The result of one fingerprinting pass.
pub struct Pass {
    /// The token slots.
    pub w: Seq<SqliToken>,
    /// The fingerprint.
    pub fp: Seq<u8>,
    /// The five fingerprint bytes left behind.
    pub slots: Seq<u8>,
    /// Tokens seen.
    pub tokens: int,
    /// `#` occurrences.
    pub hash: int,
    /// ANSI `--x` comments.
    pub ddx: int,
    /// Folds counted.
    pub folds: int,
}

/// One fingerprinting pass over `input` under `flags`: fold from a fresh
/// state, then record the categories of the folded tokens (an evil token
/// makes the fingerprint `X`).
pub open spec fn pass_of(input: Seq<u8>, flags: u32) -> Pass {
    let fl = SqliState::effective_flags(flags);
    let (n, x) = fold_from(input, fl, Lx { w: empty_window(), lpos: 0, tokens: 0, hash: 0, ddx: 0, folds: 0 });
    let w = tick_fixed(x.w, n);
    let k = if n < 5 { n } else { 5 };
    if has_evil(w, n) {
        Pass {
            w: w.update(0, recat(w[0], TT_EVIL)),
            fp: seq![TT_EVIL],
            slots: fp_slots(w, n),
            tokens: x.tokens,
            hash: x.hash,
            ddx: x.ddx,
            folds: x.folds,
        }
    } else {
        Pass {
            w,
            fp: Seq::new(k as nat, |i: int| w[i].category),
            slots: fp_slots(w, n),
            tokens: x.tokens,
            hash: x.hash,
            ddx: x.ddx,
            folds: x.folds,
        }
    }
}

/// The pass under `flags` finds an injection: its fingerprint is listed and
/// the whitelist does not excuse it.
pub open spec fn pass_hits(input: Seq<u8>, flags: u32) -> bool {
    let p = pass_of(input, flags);
    is_blacklisted(p.fp) && whitelist_confirms(input, p.w, p.fp, p.tokens)
}

/// The pass under `flags` saw an ANSI-only comment or a `#`.
pub open spec fn pass_wants_mysql(input: Seq<u8>, flags: u32) -> bool {
    let p = pass_of(input, flags);
    p.ddx != 0 || p.hash != 0
}

/// The flags of the pass at which the detector stops with an injection:
/// unquoted ANSI, then unquoted `MySQL` when the ANSI pass asks for it, then
/// (when the input holds a `'`) a `'` context in ANSI and, if that pass asks,
/// in `MySQL`, then (when it holds a `"`) a `"` context in `MySQL`.
pub open spec fn detecting_pass(input: Seq<u8>) -> Option<u32> {
    let none_ansi = FLAG_QUOTE_NONE | FLAG_SQL_ANSI;
    let none_mysql = FLAG_QUOTE_NONE | FLAG_SQL_MYSQL;
    let single_ansi = FLAG_QUOTE_SINGLE | FLAG_SQL_ANSI;
    let single_mysql = FLAG_QUOTE_SINGLE | FLAG_SQL_MYSQL;
    let double_mysql = FLAG_QUOTE_DOUBLE | FLAG_SQL_MYSQL;
    if input.len() == 0 {
        None
    } else if pass_hits(input, none_ansi) {
        Some(none_ansi)
    } else if pass_wants_mysql(input, none_ansi) && pass_hits(input, none_mysql) {
        Some(none_mysql)
    } else if input.contains(BYTE_SINGLE) && pass_hits(input, single_ansi) {
        Some(single_ansi)
    } else if input.contains(BYTE_SINGLE) && pass_wants_mysql(input, single_ansi) && pass_hits(input, single_mysql) {
        Some(single_mysql)
    } else if input.contains(BYTE_DOUBLE) && pass_hits(input, double_mysql) {
        Some(double_mysql)
    } else {
        None
    }
}

/// The fingerprint with which the detector flags `input`, if it does.
pub open spec fn legacy_fingerprint_of(input: Seq<u8>) -> Option<Seq<u8>> {
    match detecting_pass(input) {
        Some(f) => Some(pass_of(input, f).fp),
        None => None,
    }
}

} // verus!
