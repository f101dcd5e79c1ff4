//! Folding: reduce the token stream to at most five tokens for fingerprinting.
use vstd::prelude::*;
use crate::sqli::legacy::consts::{
    BYTE_NULL, MAX_TOKENS, TOKEN_SIZE, TT_BACKSLASH, TT_BAREWORD, TT_COLLATE, TT_COMMA, TT_COMMENT, TT_DOT, TT_EVIL,
    TT_EXPRESSION, TT_FUNCTION, TT_GROUP, TT_KEYWORD, TT_LBRACE, TT_LOGIC_OPERATOR, TT_LPAREN, TT_NUMBER,
    TT_OPERATOR, TT_RBRACE, TT_RPAREN, TT_SEMICOLON, TT_SQLTYPE, TT_STRING, TT_TSQL, TT_UNION, TT_VARIABLE,
};
use crate::engine::ascii::contains_byte;
use crate::sqli::legacy::data::{search_keyword, spec_search_keyword};
use crate::sqli::legacy::helpers::{spec_upper_eq, matches_upper};
use crate::sqli::legacy::lex::{empty_tok, sat16};
use crate::sqli::legacy::passes::{
    fill_fuel, fold_fill, fold_finish, fold_from, fold_lead, fold_main, lemma_fold_pass_progress, rank_sum,
    counted, restart_sum, unread, with_window, Fs,
};
use crate::sqli::legacy::state::SqliState;
use crate::sqli::legacy::token::{cap_len, val_of, SqliToken};

verus! {

/// Categories that may start a two-word phrase.
pub open spec fn merge_first(c: u8) -> bool {
    c == TT_KEYWORD || c == TT_BAREWORD || c == TT_OPERATOR || c == TT_UNION || c == TT_FUNCTION
        || c == TT_EXPRESSION || c == TT_TSQL || c == TT_SQLTYPE
}

/// Categories that may end a two-word phrase.
pub open spec fn merge_second(c: u8) -> bool {
    merge_first(c) || c == TT_LOGIC_OPERATOR
}

/// The phrase `a b`: both values joined by one space.
pub open spec fn merge_key(a: SqliToken, b: SqliToken) -> Seq<u8> {
    a.spec_val() + seq![32u8] + b.spec_val()
}

/// The category of the phrase `a b`, or `BYTE_NULL` when the two do not merge.
pub open spec fn merge_category(a: SqliToken, b: SqliToken) -> u8 {
    if merge_first(a.category) && merge_second(b.category) && a.len + b.len + 1 <= TOKEN_SIZE {
        spec_search_keyword(merge_key(a, b))
    } else {
        BYTE_NULL
    }
}

/// `t` is the token that replaces `a` when `a b` merges into one phrase.
pub open spec fn is_merge_of(t: SqliToken, a: SqliToken, b: SqliToken) -> bool {
    let key = merge_key(a, b);
    &&& t.category == merge_category(a, b)
    &&& t.pos == a.pos
    &&& t.len == cap_len(key.len() as int)
    &&& t.val@ == val_of(key, cap_len(key.len() as int))
    &&& t.count == a.count
    &&& t.str_open == a.str_open
    &&& t.str_close == a.str_close
}

/// `new` differs from `old` at most in its token window.
pub open spec fn tokens_only<'a>(new: &SqliState<'a>, old: &SqliState<'a>) -> bool {
    &&& new.wf()
    &&& new.same_frame(old)
    &&& new.pos == old.pos
    &&& new.fingerprint == old.fingerprint
    &&& new.fingerprint_len == old.fingerprint_len
    &&& new.stats_tokens == old.stats_tokens
    &&& new.stats_comment_ddx == old.stats_comment_ddx
    &&& new.stats_comment_hash == old.stats_comment_hash
}

/// `new` reads the same input as `old`.
pub open spec fn same_input<'a>(new: &SqliState<'a>, old: &SqliState<'a>) -> bool {
    &&& new.wf()
    &&& new.input == old.input
    &&& new.length == old.length
    &&& new.flags == old.flags
    &&& new.fingerprint == old.fingerprint
    &&& new.fingerprint_len == old.fingerprint_len
}

/// `v` names a function that reads as a bareword unless it is called
/// (`USER`, `DATABASE`, `CURRENT_DATE`, ...), in any letter case.
pub open spec fn disambiguated_name(v: Seq<u8>) -> bool {
    spec_upper_eq(seq![85u8, 83, 69, 82, 95, 73, 68], v)
        || spec_upper_eq(seq![85u8, 83, 69, 82, 95, 78, 65, 77, 69], v)
        || spec_upper_eq(seq![68u8, 65, 84, 65, 66, 65, 83, 69], v)
        || spec_upper_eq(seq![80u8, 65, 83, 83, 87, 79, 82, 68], v)
        || spec_upper_eq(seq![85u8, 83, 69, 82], v)
        || spec_upper_eq(seq![67u8, 85, 82, 82, 69, 78, 84, 95, 85, 83, 69, 82], v)
        || spec_upper_eq(seq![67u8, 85, 82, 82, 69, 78, 84, 95, 68, 65, 84, 69], v)
        || spec_upper_eq(seq![67u8, 85, 82, 82, 69, 78, 84, 95, 84, 73, 77, 69], v)
        || spec_upper_eq(seq![67u8, 85, 82, 82, 69, 78, 84, 95, 84, 73, 77, 69, 83, 84, 65, 77, 80], v)
        || spec_upper_eq(seq![76u8, 79, 67, 65, 76, 84, 73, 77, 69], v)
        || spec_upper_eq(seq![76u8, 79, 67, 65, 76, 84, 73, 77, 69, 83, 84, 65, 77, 80], v)
}

/// The first five tokens form one of the patterns that collapse when the
/// window overflows (`1o(1)`, `1,(1)`, `no(n)`, `no(1)`, `1),(1`, `n)o(n`).
pub open spec fn five_collapse(w: Seq<SqliToken>) -> bool {
    let t0 = w[0].category;
    let t1 = w[1].category;
    let t2 = w[2].category;
    let t3 = w[3].category;
    let t4 = w[4].category;
    ||| (t0 == TT_NUMBER && (t1 == TT_OPERATOR || t1 == TT_COMMA) && t2 == TT_LPAREN && t3 == TT_NUMBER && t4
        == TT_RPAREN)
    ||| (t0 == TT_BAREWORD && t1 == TT_OPERATOR && t2 == TT_LPAREN && (t3 == TT_BAREWORD || t3 == TT_NUMBER) && t4
        == TT_RPAREN)
    ||| (t0 == TT_NUMBER && t1 == TT_RPAREN && t2 == TT_COMMA && t3 == TT_LPAREN && t4 == TT_NUMBER)
    ||| (t0 == TT_BAREWORD && t1 == TT_RPAREN && t2 == TT_OPERATOR && t3 == TT_LPAREN && t4 == TT_BAREWORD)
}

/// What a three-token rule does to the window.
#[derive(Clone, Copy, PartialEq, Eq, Structural)]
pub enum ThreeFold {
    /// Drop the last two tokens of the window and restart from the left.
    Collapse,
    /// As `Collapse`, counting two folded tokens (a `::` cast).
    CollapseCounted,
    /// Replace the middle token by the third, drop the last token, restart.
    Shift,
    /// Replace the middle token by the third, drop three tokens, restart.
    Backtrack,
    /// A `USER(...)` call: the first token reads as a bareword; no rule applies.
    UserAsBareword,
    /// No rule applies.
    NoRule,
}

/// Category of `t` is one of `n 1 v s`.
pub open spec fn is_value_cat(c: u8) -> bool {
    c == TT_BAREWORD || c == TT_NUMBER || c == TT_VARIABLE || c == TT_STRING
}

/// The three-token rule that applies to tokens `l`, `l + 1`, `l + 2` of `w`.
pub open spec fn three_rule(w: Seq<SqliToken>, l: int) -> ThreeFold {
    let t0 = w[l].category;
    let t1 = w[l + 1].category;
    let t2 = w[l + 2].category;
    let u1 = w[l + 1].spec_is_unary_op();
    if t0 == TT_NUMBER && t1 == TT_OPERATOR && t2 == TT_NUMBER {
        ThreeFold::Collapse
    } else if t0 == TT_OPERATOR && t1 != TT_LPAREN && t2 == TT_OPERATOR {
        ThreeFold::Collapse
    } else if t0 == TT_LOGIC_OPERATOR && t2 == TT_LOGIC_OPERATOR {
        ThreeFold::Collapse
    } else if t0 == TT_VARIABLE && t1 == TT_OPERATOR && (t2 == TT_VARIABLE || t2 == TT_NUMBER || t2
        == TT_BAREWORD) {
        ThreeFold::Collapse
    } else if (t0 == TT_BAREWORD || t0 == TT_NUMBER) && t1 == TT_OPERATOR && (t2 == TT_NUMBER || t2
        == TT_BAREWORD) {
        ThreeFold::Collapse
    } else if is_value_cat(t0) && t1 == TT_OPERATOR && t2 == TT_SQLTYPE && w[l + 1].len == 2
        && w[l + 1].val@[0] == 58 && w[l + 1].val@[1] == 58 {
        ThreeFold::CollapseCounted
    } else if is_value_cat(t0) && t1 == TT_COMMA && is_value_cat(t2) {
        ThreeFold::Collapse
    } else if (t0 == TT_EXPRESSION || t0 == TT_GROUP || t0 == TT_COMMA) && u1 && t2 == TT_LPAREN {
        ThreeFold::Shift
    } else if (t0 == TT_KEYWORD || t0 == TT_EXPRESSION || t0 == TT_GROUP) && u1 && (is_value_cat(t2) || t2
        == TT_FUNCTION) {
        ThreeFold::Shift
    } else if t0 == TT_COMMA && u1 && is_value_cat(t2) {
        ThreeFold::Backtrack
    } else if t0 == TT_COMMA && u1 && t2 == TT_FUNCTION {
        ThreeFold::Shift
    } else if t0 == TT_BAREWORD && t1 == TT_DOT && t2 == TT_BAREWORD {
        ThreeFold::Collapse
    } else if t0 == TT_EXPRESSION && t1 == TT_DOT && t2 == TT_BAREWORD {
        ThreeFold::Shift
    } else if t0 == TT_FUNCTION && t1 == TT_LPAREN && t2 != TT_RPAREN && spec_upper_eq(
        seq![85u8, 83, 69, 82],
        w[l].spec_val(),
    ) {
        ThreeFold::UserAsBareword
    } else {
        ThreeFold::NoRule
    }
}

/// `a + n`, saturating at `u16::MAX`.
pub open spec fn sat_add16(a: u16, n: u16) -> u16 {
    if a + n > u16::MAX {
        u16::MAX
    } else {
        (a + n) as u16
    }
}

/// The window after a three-token rule, and what the rule reports.
pub open spec fn three_applied<'a>(
    old: &SqliState<'a>,
    new: &SqliState<'a>,
    left: int,
    pos: int,
    new_left: int,
    new_pos: int,
    r: bool,
) -> bool {
    let w = old.token_vec@;
    match three_rule(w, left) {
        ThreeFold::Collapse => r && new_left == 0 && new_pos == pos - 2 && new.token_vec@ == w
            && new.stats_folds == old.stats_folds,
        ThreeFold::CollapseCounted => r && new_left == 0 && new_pos == pos - 2 && new.token_vec@ == w
            && new.stats_folds == sat_add16(old.stats_folds, 2),
        ThreeFold::Shift => r && new_left == 0 && new_pos == pos - 1 && new.token_vec@ == w.update(
            left + 1,
            w[left + 2],
        ) && new.stats_folds == old.stats_folds,
        ThreeFold::Backtrack => r && new_left == 0 && new_pos == pos - 3 && new.token_vec@ == w.update(
            left + 1,
            w[left + 2],
        ) && new.stats_folds == old.stats_folds,
        ThreeFold::UserAsBareword => !r && new_left == left && new_pos == pos && new.token_vec@ == w.update(
            left,
            SqliToken { category: TT_BAREWORD, ..w[left] },
        ) && new.stats_folds == old.stats_folds,
        ThreeFold::NoRule => !r && new_left == left && new_pos == pos && new.token_vec@ == w
            && new.stats_folds == old.stats_folds,
    }
}

/// What the two-token rules tell the fold loop to do next.
#[derive(Clone, Copy, PartialEq, Eq, Structural)]
pub enum FoldAction {
    /// A rule matched: start the next pass.
    Continue,
    /// Stop folding and report this many tokens.
    EarlyReturn(usize),
    /// Go on to the three-token rules.
    FallThrough,
}

/// What a two-token rule does to the window.
#[derive(Clone, Copy, PartialEq, Eq, Structural)]
pub enum TwoFold {
    /// Drop the last token of the window.
    DropLast,
    /// Drop the last token and restart from the left.
    DropLastReset,
    /// Drop the last token and step back one token.
    DropLastBack,
    /// Merge the pair into one phrase token, then step back one token.
    Merge,
    /// `; IF`: the second token becomes a T-SQL `IF`.
    MarkTsql,
    /// A function name followed by `(`: the first token becomes a function.
    MarkFunction,
    /// `IN` / `NOT IN`: an operator before `(`, else a bareword.
    InOperator,
    /// `LIKE` / `NOT LIKE`: a function before `(`; then on to the three-token rules.
    LikeFunction,
    /// A SQL type swallows the next value: the pair becomes that value; restart.
    TypeSwallow,
    /// `COLLATE` + bareword: a bareword with `_` becomes a SQL type (restart);
    /// then on to the three-token rules.
    CollateType,
    /// A backslash before an arithmetic operator becomes a number; restart.
    BackslashNumber,
    /// A backslash is replaced by the next token; restart.
    BackslashDrop,
    /// `{` + empty bareword: the bareword becomes evil and folding stops.
    BraceEvil,
    /// `{` + bareword: both are dropped; restart.
    BraceSkip,
    /// No rule applies: on to the three-token rules.
    NoRule,
}

/// The two-token rule that applies to tokens `l`, `l + 1` of `w`.
pub open spec fn two_rule(w: Seq<SqliToken>, l: int) -> TwoFold {
    let t0 = w[l].category;
    let t1 = w[l + 1].category;
    let v0 = w[l].spec_val();
    let v1 = w[l + 1];
    if t0 == TT_STRING && t1 == TT_STRING {
        TwoFold::DropLast
    } else if t0 == TT_SEMICOLON && t1 == TT_SEMICOLON {
        TwoFold::DropLast
    } else if (t0 == TT_OPERATOR || t0 == TT_LOGIC_OPERATOR) && (v1.spec_is_unary_op() || t1 == TT_SQLTYPE) {
        TwoFold::DropLastReset
    } else if t0 == TT_LPAREN && v1.spec_is_unary_op() {
        TwoFold::DropLastBack
    } else if merge_category(w[l], v1) != BYTE_NULL {
        TwoFold::Merge
    } else if t0 == TT_SEMICOLON && t1 == TT_FUNCTION && v1.len >= 2 && (v1.val@[0] == 73 || v1.val@[0] == 105)
        && (v1.val@[1] == 70 || v1.val@[1] == 102) {
        TwoFold::MarkTsql
    } else if (t0 == TT_BAREWORD || t0 == TT_VARIABLE) && t1 == TT_LPAREN && disambiguated_name(v0) {
        TwoFold::MarkFunction
    } else if t0 == TT_KEYWORD && (spec_upper_eq(seq![73u8, 78], v0) || spec_upper_eq(
        seq![78u8, 79, 84, 32, 73, 78],
        v0,
    )) {
        TwoFold::InOperator
    } else if t0 == TT_OPERATOR && (spec_upper_eq(seq![76u8, 73, 75, 69], v0) || spec_upper_eq(
        seq![78u8, 79, 84, 32, 76, 73, 75, 69],
        v0,
    )) {
        TwoFold::LikeFunction
    } else if t0 == TT_SQLTYPE && (t1 == TT_BAREWORD || t1 == TT_NUMBER || t1 == TT_SQLTYPE || t1 == TT_LPAREN
        || t1 == TT_FUNCTION || t1 == TT_VARIABLE || t1 == TT_STRING) {
        TwoFold::TypeSwallow
    } else if t0 == TT_COLLATE && t1 == TT_BAREWORD {
        TwoFold::CollateType
    } else if t0 == TT_BACKSLASH && v1.spec_is_arithmetic_op() {
        TwoFold::BackslashNumber
    } else if t0 == TT_BACKSLASH {
        TwoFold::BackslashDrop
    } else if t0 == TT_LPAREN && t1 == TT_LPAREN {
        TwoFold::DropLastReset
    } else if t0 == TT_RPAREN && t1 == TT_RPAREN {
        TwoFold::DropLastReset
    } else if t0 == TT_LBRACE && t1 == TT_BAREWORD && v1.len == 0 {
        TwoFold::BraceEvil
    } else if t0 == TT_LBRACE && t1 == TT_BAREWORD {
        TwoFold::BraceSkip
    } else if t1 == TT_RBRACE {
        TwoFold::DropLastReset
    } else {
        TwoFold::NoRule
    }
}

/// Token `t` with category `c`.
pub open spec fn recat(t: SqliToken, c: u8) -> SqliToken {
    SqliToken { category: c, ..t }
}

/// The window after a two-token rule, and what the rule tells the fold loop.
pub open spec fn two_applied<'a>(
    old: &SqliState<'a>,
    new: &SqliState<'a>,
    left: int,
    pos: int,
    new_left: int,
    new_pos: int,
    r: FoldAction,
) -> bool {
    let w = old.token_vec@;
    let back = if left > 0 { left - 1 } else { 0 };
    match two_rule(w, left) {
        TwoFold::DropLast => r == FoldAction::Continue && new_left == left && new_pos == pos - 1
            && new.token_vec@ == w && new.stats_folds == sat_add16(old.stats_folds, 1),
        TwoFold::DropLastReset => r == FoldAction::Continue && new_left == 0 && new_pos == pos - 1
            && new.token_vec@ == w && new.stats_folds == sat_add16(old.stats_folds, 1),
        TwoFold::DropLastBack => r == FoldAction::Continue && new_left == back && new_pos == pos - 1
            && new.token_vec@ == w && new.stats_folds == sat_add16(old.stats_folds, 1),
        TwoFold::Merge => r == FoldAction::Continue && new_left == back && new_pos == pos - 1
            && new.token_vec@ == w.update(left, new.token_vec@[left]) && is_merge_of(
            new.token_vec@[left],
            w[left],
            w[left + 1],
        ) && new.stats_folds == sat_add16(old.stats_folds, 1),
        TwoFold::MarkTsql => r == FoldAction::Continue && new_left == left && new_pos == pos
            && new.token_vec@ == w.update(left + 1, recat(w[left + 1], TT_TSQL)) && new.stats_folds
            == old.stats_folds,
        TwoFold::MarkFunction => r == FoldAction::Continue && new_left == left && new_pos == pos
            && new.token_vec@ == w.update(left, recat(w[left], TT_FUNCTION)) && new.stats_folds
            == old.stats_folds,
        TwoFold::InOperator => r == FoldAction::Continue && new_left == left && new_pos == pos
            && new.token_vec@ == w.update(
            left,
            recat(w[left], if w[left + 1].category == TT_LPAREN { TT_OPERATOR } else { TT_BAREWORD }),
        ) && new.stats_folds == old.stats_folds,
        TwoFold::LikeFunction => r == FoldAction::FallThrough && new_left == left && new_pos == pos
            && new.token_vec@ == (if w[left + 1].category == TT_LPAREN {
            w.update(left, recat(w[left], TT_FUNCTION))
        } else {
            w
        }) && new.stats_folds == old.stats_folds,
        TwoFold::TypeSwallow => r == FoldAction::Continue && new_left == 0 && new_pos == pos - 1
            && new.token_vec@ == w.update(left, w[left + 1]) && new.stats_folds == sat_add16(
            old.stats_folds,
            1,
        ),
        TwoFold::CollateType => r == FoldAction::FallThrough && new_pos == pos && (if w[left
            + 1].spec_val().contains(95u8) {
            new_left == 0 && new.token_vec@ == w.update(left + 1, recat(w[left + 1], TT_SQLTYPE))
        } else {
            new_left == left && new.token_vec@ == w
        }) && new.stats_folds == old.stats_folds,
        TwoFold::BackslashNumber => r == FoldAction::Continue && new_left == 0 && new_pos == pos
            && new.token_vec@ == w.update(left, recat(w[left], TT_NUMBER)) && new.stats_folds
            == old.stats_folds,
        TwoFold::BackslashDrop => r == FoldAction::Continue && new_left == 0 && new_pos == pos - 1
            && new.token_vec@ == w.update(left, w[left + 1]) && new.stats_folds == sat_add16(
            old.stats_folds,
            1,
        ),
        TwoFold::BraceEvil => r == FoldAction::EarlyReturn((left + 2) as usize) && new_left == left && new_pos
            == pos && new.token_vec@ == w.update(left + 1, recat(w[left + 1], TT_EVIL)) && new.stats_folds
            == old.stats_folds,
        TwoFold::BraceSkip => r == FoldAction::Continue && new_left == 0 && new_pos == pos - 2
            && new.token_vec@ == w && new.stats_folds == sat_add16(old.stats_folds, 2),
        TwoFold::NoRule => r == FoldAction::FallThrough && new_left == left && new_pos == pos
            && new.token_vec@ == w && new.stats_folds == old.stats_folds,
    }
}

/// The token that replaces `a` when `a b` merges into one phrase.
pub open spec fn merged(a: SqliToken, b: SqliToken) -> SqliToken {
    let key = merge_key(a, b);
    SqliToken {
        category: merge_category(a, b),
        len: cap_len(key.len() as int) as usize,
        val: choose|v: [u8; 32]| v@ == val_of(key, cap_len(key.len() as int)),
        ..a
    }
}

/// The merge token is the one `merged` names.
pub proof fn lemma_merged(t: SqliToken, a: SqliToken, b: SqliToken)
    requires
        is_merge_of(t, a, b),
    ensures
        t == merged(a, b),
{
    let key = merge_key(a, b);
    let v = choose|v: [u8; 32]| v@ == val_of(key, cap_len(key.len() as int));
    assert(t.val@ == val_of(key, cap_len(key.len() as int)));
    assert(v =~= t.val) by {
        assert forall|i: int| 0 <= i < 32 implies v[i] == t.val[i] by {
            assert(v@[i] == t.val@[i]);
        }
    }
}

/// A token window: the tokens, the left edge of the rule window and the
/// number of tokens.
pub struct Win {
    pub w: Seq<SqliToken>,
    pub left: int,
    pub pos: int,
    /// Folds the rule counts.
    pub add: int,
}

/// The two-token rules on tokens `l`, `l + 1` of a window of `p` tokens: the
/// window after them and what the fold loop does next (after an early
/// return only the tokens count).
pub open spec fn two_step(w: Seq<SqliToken>, l: int, p: int) -> (Win, FoldAction) {
    let back = if l > 0 { l - 1 } else { 0 };
    let lparen = w[l + 1].category == TT_LPAREN;
    match two_rule(w, l) {
        TwoFold::DropLast => (Win { w, left: l, pos: p - 1, add: 1 }, FoldAction::Continue),
        TwoFold::DropLastReset => (Win { w, left: 0, pos: p - 1, add: 1 }, FoldAction::Continue),
        TwoFold::DropLastBack => (Win { w, left: back, pos: p - 1, add: 1 }, FoldAction::Continue),
        TwoFold::Merge => (Win { w: w.update(l, merged(w[l], w[l + 1])), left: back, pos: p - 1, add: 1 }, FoldAction::Continue),
        TwoFold::MarkTsql => (Win { w: w.update(l + 1, recat(w[l + 1], TT_TSQL)), left: l, pos: p, add: 0 }, FoldAction::Continue),
        TwoFold::MarkFunction => (Win { w: w.update(l, recat(w[l], TT_FUNCTION)), left: l, pos: p, add: 0 }, FoldAction::Continue),
        TwoFold::InOperator => (
            Win { w: w.update(l, recat(w[l], if lparen { TT_OPERATOR } else { TT_BAREWORD })), left: l, pos: p, add: 0 },
            FoldAction::Continue,
        ),
        TwoFold::LikeFunction => (
            Win { w: if lparen { w.update(l, recat(w[l], TT_FUNCTION)) } else { w }, left: l, pos: p, add: 0 },
            FoldAction::FallThrough,
        ),
        TwoFold::TypeSwallow => (Win { w: w.update(l, w[l + 1]), left: 0, pos: p - 1, add: 1 }, FoldAction::Continue),
        TwoFold::CollateType => if w[l + 1].spec_val().contains(95u8) {
            (Win { w: w.update(l + 1, recat(w[l + 1], TT_SQLTYPE)), left: 0, pos: p, add: 0 }, FoldAction::FallThrough)
        } else {
            (Win { w, left: l, pos: p, add: 0 }, FoldAction::FallThrough)
        },
        TwoFold::BackslashNumber => (Win { w: w.update(l, recat(w[l], TT_NUMBER)), left: 0, pos: p, add: 0 }, FoldAction::Continue),
        TwoFold::BackslashDrop => (Win { w: w.update(l, w[l + 1]), left: 0, pos: p - 1, add: 1 }, FoldAction::Continue),
        TwoFold::BraceEvil => (
            Win { w: w.update(l + 1, recat(w[l + 1], TT_EVIL)), left: l, pos: p, add: 0 },
            FoldAction::EarlyReturn((l + 2) as usize),
        ),
        TwoFold::BraceSkip => (Win { w, left: 0, pos: p - 2, add: 2 }, FoldAction::Continue),
        TwoFold::NoRule => (Win { w, left: l, pos: p, add: 0 }, FoldAction::FallThrough),
    }
}

/// The three-token rules on tokens `l .. l + 3` of a window of `p` tokens:
/// the window after them and whether one matched.
pub open spec fn three_step(w: Seq<SqliToken>, l: int, p: int) -> (Win, bool) {
    match three_rule(w, l) {
        ThreeFold::Collapse => (Win { w, left: 0, pos: p - 2, add: 0 }, true),
        ThreeFold::CollapseCounted => (Win { w, left: 0, pos: p - 2, add: 2 }, true),
        ThreeFold::Shift => (Win { w: w.update(l + 1, w[l + 2]), left: 0, pos: p - 1, add: 0 }, true),
        ThreeFold::Backtrack => (Win { w: w.update(l + 1, w[l + 2]), left: 0, pos: p - 3, add: 0 }, true),
        ThreeFold::UserAsBareword => (Win { w: w.update(l, recat(w[l], TT_BAREWORD)), left: l, pos: p, add: 0 }, false),
        ThreeFold::NoRule => (Win { w, left: l, pos: p, add: 0 }, false),
    }
}

/// What the two-token rules did, as `two_step` says.
pub proof fn lemma_two_step<'a>(
    old: &SqliState<'a>,
    new: &SqliState<'a>,
    left: int,
    pos: int,
    new_left: int,
    new_pos: int,
    r: FoldAction,
)
    requires
        two_applied(old, new, left, pos, new_left, new_pos, r),
        0 <= left,
        left + 2 <= 8,
    ensures
        ({
            let (win, act) = two_step(old.token_vec@, left, pos);
            &&& r == act
            &&& new.token_vec@ == win.w
            &&& new_left == win.left && new_pos == win.pos
            &&& new.stats_folds == sat16(old.stats_folds + win.add)
        }),
{
    let w = old.token_vec@;
    if two_rule(w, left) == TwoFold::Merge {
        lemma_merged(new.token_vec@[left], w[left], w[left + 1]);
        assert(new.token_vec@ =~= w.update(left, merged(w[left], w[left + 1])));
    }
}

/// What the three-token rules did, as `three_step` says.
pub proof fn lemma_three_step<'a>(
    old: &SqliState<'a>,
    new: &SqliState<'a>,
    left: int,
    pos: int,
    new_left: int,
    new_pos: int,
    r: bool,
)
    requires
        three_applied(old, new, left, pos, new_left, new_pos, r),
    ensures
        ({
            let (win, hit) = three_step(old.token_vec@, left, pos);
            &&& r == hit
            &&& new.token_vec@ == win.w
            &&& new_left == win.left
            &&& new_pos == win.pos
            &&& new.stats_folds == sat16(old.stats_folds + win.add)
        }),
{
}

impl<'a> SqliState<'a> {
    /// Try to merge tokens `a_idx` and `b_idx` into one phrase (`UNION ALL`,
    /// `NOT IN`, ...). On success token `a_idx` becomes the phrase.
    pub fn try_merge(&mut self, a_idx: usize, b_idx: usize) -> (r: bool)
        requires
            old(self).wf(),
            a_idx < 8,
            b_idx < 8,
        ensures
            tokens_only(final(self), old(self)),
            final(self).stats_folds == old(self).stats_folds,
            r == (merge_category(old(self).token_vec@[a_idx as int], old(self).token_vec@[b_idx as int])
                != BYTE_NULL),
            r ==> final(self).token_vec@ == old(self).token_vec@.update(
                a_idx as int,
                final(self).token_vec@[a_idx as int],
            ),
            r ==> is_merge_of(
                final(self).token_vec@[a_idx as int],
                old(self).token_vec@[a_idx as int],
                old(self).token_vec@[b_idx as int],
            ),
            !r ==> final(self).token_vec == old(self).token_vec,
    {
        let a_cat = self.tc(a_idx);
        let b_cat = self.tc(b_idx);
        if !(a_cat == TT_KEYWORD || a_cat == TT_BAREWORD || a_cat == TT_OPERATOR || a_cat == TT_UNION
            || a_cat == TT_FUNCTION || a_cat == TT_EXPRESSION || a_cat == TT_TSQL || a_cat == TT_SQLTYPE) {
            return false;
        }
        if !(b_cat == TT_KEYWORD || b_cat == TT_BAREWORD || b_cat == TT_OPERATOR || b_cat == TT_UNION
            || b_cat == TT_FUNCTION || b_cat == TT_EXPRESSION || b_cat == TT_TSQL || b_cat == TT_SQLTYPE
            || b_cat == TT_LOGIC_OPERATOR) {
            return false;
        }
        let a_len = self.token_len(a_idx);
        let b_len = self.token_len(b_idx);
        if a_len + b_len + 1 > TOKEN_SIZE {
            return false;
        }
        let a_val = self.token_val_slice(a_idx);
        let b_val = self.token_val_slice(b_idx);
        let total = a_len + 1 + b_len;
        let ghost key = merge_key(self.token_vec@[a_idx as int], self.token_vec@[b_idx as int]);
        let mut merged = [0u8; 32];
        let mut i: usize = 0;
        while i < a_len
            invariant
                i <= a_len,
                a_len + b_len + 1 <= TOKEN_SIZE,
                a_val@.len() == a_len,
                key == a_val@ + seq![32u8] + b_val@,
                forall|k: int| 0 <= k < i ==> merged@[k] == key[k],
            decreases a_len - i,
        {
            merged[i] = a_val[i];
            i += 1;
        }
        merged[a_len] = 32u8;
        let mut j: usize = 0;
        while j < b_len
            invariant
                j <= b_len,
                a_len + b_len + 1 <= TOKEN_SIZE,
                a_val@.len() == a_len,
                b_val@.len() == b_len,
                key == a_val@ + seq![32u8] + b_val@,
                forall|k: int| 0 <= k < a_len + 1 + j ==> merged@[k] == key[k],
            decreases b_len - j,
        {
            merged[a_len + 1 + j] = b_val[j];
            j += 1;
        }
        let ms: &[u8] = merged.as_slice();
        let phrase: &[u8] = &ms[0..total];
        assert(phrase@ =~= key);
        let ch = search_keyword(phrase);
        if ch != BYTE_NULL {
            let mut tok = self.token_vec[a_idx];
            let a_pos = tok.pos;
            tok.assign(ch, a_pos, total, phrase);
            self.token_vec[a_idx] = tok;
            return true;
        }
        false
    }

    /// One more token folded away (the count saturates).
    fn count_folds(&mut self, n: u16)
        requires
            old(self).wf(),
        ensures
            tokens_only(final(self), old(self)),
            final(self).token_vec == old(self).token_vec,
            final(self).stats_folds == sat_add16(old(self).stats_folds, n),
    {
        self.stats_folds = self.stats_folds.saturating_add(n);
    }

    /// The two-token rules on tokens `left` and `left + 1` of a window of `pos` tokens.
    pub fn fold_two_tokens(&mut self, left: &mut usize, pos: &mut usize) -> (r: FoldAction)
        requires
            old(self).wf(),
            *old(left) + 2 <= *old(pos) <= MAX_TOKENS + 1,
        ensures
            tokens_only(final(self), old(self)),
            match r {
                FoldAction::EarlyReturn(n) => n <= MAX_TOKENS + 1,
                FoldAction::FallThrough => *final(left) <= *final(pos) && *final(pos) == *old(pos),
                FoldAction::Continue => *final(left) <= *final(pos) <= MAX_TOKENS + 1,
            },
            two_applied(
                old(self),
                final(self),
                *old(left) as int,
                *old(pos) as int,
                *final(left) as int,
                *final(pos) as int,
                r,
            ),
    {
        let l = *left;
        let l0 = self.tc(l);
        let l1 = self.tc(l + 1);
        if l0 == TT_STRING && l1 == TT_STRING {
            *pos -= 1;
            self.count_folds(1);
            return FoldAction::Continue;
        }
        if l0 == TT_SEMICOLON && l1 == TT_SEMICOLON {
            *pos -= 1;
            self.count_folds(1);
            return FoldAction::Continue;
        }
        if (l0 == TT_OPERATOR || l0 == TT_LOGIC_OPERATOR) && (self.token_is_unary_op(l + 1) || l1
            == TT_SQLTYPE) {
            *pos -= 1;
            self.count_folds(1);
            *left = 0;
            return FoldAction::Continue;
        }
        if l0 == TT_LPAREN && self.token_is_unary_op(l + 1) {
            *pos -= 1;
            self.count_folds(1);
            if *left > 0 {
                *left -= 1;
            }
            return FoldAction::Continue;
        }
        if self.try_merge(l, l + 1) {
            *pos -= 1;
            self.count_folds(1);
            if *left > 0 {
                *left -= 1;
            }
            return FoldAction::Continue;
        }
        if l0 == TT_SEMICOLON && l1 == TT_FUNCTION && self.token_len(l + 1) >= 2 {
            let b0 = self.token_val_byte(l + 1, 0);
            let b1 = self.token_val_byte(l + 1, 1);
            if (b0 == Some(73u8) || b0 == Some(105u8)) && (b1 == Some(70u8) || b1 == Some(102u8)) {
                self.set_tc(l + 1, TT_TSQL);
                return FoldAction::Continue;
            }
        }
        if (l0 == TT_BAREWORD || l0 == TT_VARIABLE) && l1 == TT_LPAREN && self.is_disambiguated_function(l) {
            self.set_tc(l, TT_FUNCTION);
            return FoldAction::Continue;
        }
        if l0 == TT_KEYWORD {
            let val = self.token_val_slice(l);
            if matches_upper(&[73u8, 78], val) || matches_upper(&[78u8, 79, 84, 32, 73, 78], val) {
                if l1 == TT_LPAREN {
                    self.set_tc(l, TT_OPERATOR);
                } else {
                    self.set_tc(l, TT_BAREWORD);
                }
                return FoldAction::Continue;
            }
        }
        if l0 == TT_OPERATOR {
            let val = self.token_val_slice(l);
            if matches_upper(&[76u8, 73, 75, 69], val) || matches_upper(&[78u8, 79, 84, 32, 76, 73, 75, 69], val) {
                if l1 == TT_LPAREN {
                    self.set_tc(l, TT_FUNCTION);
                }
                return FoldAction::FallThrough;
            }
        }
        if l0 == TT_SQLTYPE && (l1 == TT_BAREWORD || l1 == TT_NUMBER || l1 == TT_SQLTYPE || l1 == TT_LPAREN
            || l1 == TT_FUNCTION || l1 == TT_VARIABLE || l1 == TT_STRING) {
            self.copy_token(l, l + 1);
            *pos -= 1;
            self.count_folds(1);
            *left = 0;
            return FoldAction::Continue;
        }
        if l0 == TT_COLLATE && l1 == TT_BAREWORD {
            let val = self.token_val_slice(l + 1);
            if contains_byte(val, 95u8) {
                self.set_tc(l + 1, TT_SQLTYPE);
                *left = 0;
            }
            return FoldAction::FallThrough;
        }
        if l0 == TT_BACKSLASH {
            if self.token_is_arithmetic_op(l + 1) {
                self.set_tc(l, TT_NUMBER);
            } else {
                self.copy_token(l, l + 1);
                *pos -= 1;
                self.count_folds(1);
            }
            *left = 0;
            return FoldAction::Continue;
        }
        if l0 == TT_LPAREN && l1 == TT_LPAREN {
            *pos -= 1;
            *left = 0;
            self.count_folds(1);
            return FoldAction::Continue;
        }
        if l0 == TT_RPAREN && l1 == TT_RPAREN {
            *pos -= 1;
            *left = 0;
            self.count_folds(1);
            return FoldAction::Continue;
        }
        if l0 == TT_LBRACE && l1 == TT_BAREWORD {
            if self.token_len(l + 1) == 0 {
                self.set_tc(l + 1, TT_EVIL);
                return FoldAction::EarlyReturn(l + 2);
            }
            *left = 0;
            *pos -= 2;
            self.count_folds(2);
            return FoldAction::Continue;
        }
        if l1 == TT_RBRACE {
            *pos -= 1;
            *left = 0;
            self.count_folds(1);
            return FoldAction::Continue;
        }
        FoldAction::FallThrough
    }

    /// The three-token rules on tokens `left .. left + 3`; `true` when one matched.
    pub fn fold_three_tokens(&mut self, left: &mut usize, pos: &mut usize) -> (r: bool)
        requires
            old(self).wf(),
            *old(left) + 3 <= *old(pos) <= MAX_TOKENS + 1,
        ensures
            tokens_only(final(self), old(self)),
            r ==> *final(left) <= *final(pos) <= MAX_TOKENS + 1,
            !r ==> *final(left) == *old(left) && *final(pos) == *old(pos),
            three_applied(
                old(self),
                final(self),
                *old(left) as int,
                *old(pos) as int,
                *final(left) as int,
                *final(pos) as int,
                r,
            ),
    {
        let l = *left;
        let t0 = self.tc(l);
        let t1 = self.tc(l + 1);
        let t2 = self.tc(l + 2);
        if t0 == TT_NUMBER && t1 == TT_OPERATOR && t2 == TT_NUMBER {
            *pos -= 2;
            *left = 0;
            return true;
        }
        if t0 == TT_OPERATOR && t1 != TT_LPAREN && t2 == TT_OPERATOR {
            *pos -= 2;
            *left = 0;
            return true;
        }
        if t0 == TT_LOGIC_OPERATOR && t2 == TT_LOGIC_OPERATOR {
            *pos -= 2;
            *left = 0;
            return true;
        }
        if t0 == TT_VARIABLE && t1 == TT_OPERATOR && (t2 == TT_VARIABLE || t2 == TT_NUMBER || t2 == TT_BAREWORD) {
            *pos -= 2;
            *left = 0;
            return true;
        }
        if (t0 == TT_BAREWORD || t0 == TT_NUMBER) && t1 == TT_OPERATOR && (t2 == TT_NUMBER || t2 == TT_BAREWORD) {
            *pos -= 2;
            *left = 0;
            return true;
        }
        if (t0 == TT_BAREWORD || t0 == TT_NUMBER || t0 == TT_VARIABLE || t0 == TT_STRING) && t1 == TT_OPERATOR
            && t2 == TT_SQLTYPE {
            if self.token_len(l + 1) == 2 && self.token_val_byte(l + 1, 0) == Some(58u8)
                && self.token_val_byte(l + 1, 1) == Some(58u8) {
                *pos -= 2;
                *left = 0;
                self.count_folds(2);
                return true;
            }
        }
        if (t0 == TT_BAREWORD || t0 == TT_NUMBER || t0 == TT_STRING || t0 == TT_VARIABLE) && t1 == TT_COMMA && (t2
            == TT_NUMBER || t2 == TT_BAREWORD || t2 == TT_STRING || t2 == TT_VARIABLE) {
            *pos -= 2;
            *left = 0;
            return true;
        }
        if (t0 == TT_EXPRESSION || t0 == TT_GROUP || t0 == TT_COMMA) && self.token_is_unary_op(l + 1) && t2
            == TT_LPAREN {
            self.copy_token(l + 1, l + 2);
            *pos -= 1;
            *left = 0;
            return true;
        }
        if (t0 == TT_KEYWORD || t0 == TT_EXPRESSION || t0 == TT_GROUP) && self.token_is_unary_op(l + 1) && (t2
            == TT_NUMBER || t2 == TT_BAREWORD || t2 == TT_VARIABLE || t2 == TT_STRING || t2 == TT_FUNCTION) {
            self.copy_token(l + 1, l + 2);
            *pos -= 1;
            *left = 0;
            return true;
        }
        if t0 == TT_COMMA && self.token_is_unary_op(l + 1) && (t2 == TT_NUMBER || t2 == TT_BAREWORD || t2
            == TT_VARIABLE || t2 == TT_STRING) {
            self.copy_token(l + 1, l + 2);
            *left = 0;
            *pos -= 3;
            return true;
        }
        if t0 == TT_COMMA && self.token_is_unary_op(l + 1) && t2 == TT_FUNCTION {
            self.copy_token(l + 1, l + 2);
            *pos -= 1;
            *left = 0;
            return true;
        }
        if t0 == TT_BAREWORD && t1 == TT_DOT && t2 == TT_BAREWORD {
            *pos -= 2;
            *left = 0;
            return true;
        }
        if t0 == TT_EXPRESSION && t1 == TT_DOT && t2 == TT_BAREWORD {
            self.copy_token(l + 1, l + 2);
            *pos -= 1;
            *left = 0;
            return true;
        }
        if t0 == TT_FUNCTION && t1 == TT_LPAREN && t2 != TT_RPAREN {
            let val = self.token_val_slice(l);
            if matches_upper(&[85u8, 83, 69, 82], val) {
                self.set_tc(l, TT_BAREWORD);
            }
        }
        false
    }

    /// Fold the token stream into at most `MAX_TOKENS` tokens (six when a
    /// `{` bareword ends folding early) and return how many there are.
    ///
    /// Leading comments, `(`, SQL types and unary operators are skipped; then
    /// the two- and three-token rules rewrite the window until the input ends
    /// or five tokens are committed. A trailing comment is kept as the last
    /// token.
    pub fn fold(&mut self) -> (r: usize)
        requires
            old(self).wf(),
        ensures
            same_input(final(self), old(self)),
            r <= MAX_TOKENS + 1,
            (r as int, final(self).lx()) == fold_from(old(self).input@, old(self).flags, old(self).lx()),
    {
        let ghost input = self.input@;
        let ghost flags = self.flags;
        let ghost n = self.input@.len();
        let ghost result = fold_from(input, flags, self.lx());
        let ghost lead0 = fold_lead(input, flags, self.lx(), (n - self.pos + 1) as nat);
        let ghost mut fuel: nat = (n - self.pos + 1) as nat;
        let mut pos: usize = 0;
        let mut left: usize = 0;
        let mut more: bool;
        let mut last_comment = SqliToken::empty();
        self.current_idx = 0;
        loop
            invariant_except_break
                fuel >= n - self.pos + 1,
                lead0 == fold_lead(input, flags, self.lx(), fuel),
            invariant
                self.wf(),
                same_input(self, old(self)),
                self.current_idx == 0,
                input == self.input@,
                flags == self.flags,
                n == self.input@.len(),
            ensures
                self.wf(),
                same_input(self, old(self)),
                input == self.input@,
                flags == self.flags,
                n == self.input@.len(),
                lead0 == (more, self.lx()),
            decreases self.length - self.pos,
        {
            let ghost x = self.lx();
            let ghost f = fuel;
            more = self.tokenize();
            if !more {
                break;
            }
            let cat = self.tc(self.current_idx);
            if !(cat == TT_COMMENT || cat == TT_LPAREN || cat == TT_SQLTYPE || self.token_is_unary_op(
                self.current_idx,
            )) {
                break;
            }
            proof {
                fuel = (f - 1) as nat;
            }
        }
        if !more {
            return 0;
        }
        pos += 1;
        proof {
            last_comment.lemma_canonical();
            assert(last_comment.model() == empty_tok()) by {
                assert(last_comment.spec_val() =~= Seq::<u8>::empty());
            }
        }
        loop
            invariant
                self.wf(),
                same_input(self, old(self)),
                input == self.input@,
                flags == self.flags,
                n == self.input@.len(),
                left <= pos <= MAX_TOKENS + 1,
                last_comment.wf(),
                result == fold_from(old(self).input@, old(self).flags, old(self).lx()),
                result == fold_main(
                    input,
                    flags,
                    Fs { x: self.lx(), pos: pos as int, left: left as int, more, last: last_comment },
                ),
            ensures
                self.wf(),
                same_input(self, old(self)),
                left <= pos <= MAX_TOKENS + 1,
                last_comment.wf(),
                result == fold_finish(
                    Fs { x: self.lx(), pos: pos as int, left: left as int, more, last: last_comment },
                ),
            decreases
                (if more { 1int } else { 0int }),
                unread(input, self.lx()),
                pos as int,
                restart_sum(self.token_vec@),
                MAX_TOKENS + 1 - left,
                rank_sum(self.token_vec@),
        {
            let ghost top = Fs { x: self.lx(), pos: pos as int, left: left as int, more, last: last_comment };
            proof {
                lemma_fold_pass_progress(input, flags, top);
            }
            if pos >= MAX_TOKENS && self.check_5token_collapse() {
                if pos > MAX_TOKENS {
                    self.copy_token(1, 5);
                    pos = 2;
                    left = 0;
                } else {
                    pos = 1;
                    left = 0;
                }
            }
            if !more || left >= MAX_TOKENS {
                left = pos;
                break;
            }
            let ghost f1 = Fs { x: self.lx(), pos: pos as int, left: left as int, more, last: last_comment };
            let ghost fill2 = fold_fill(input, flags, f1, 2, fill_fuel(input, f1));
            let ghost mut fuel2: nat = fill_fuel(input, f1);
            while more && pos <= MAX_TOKENS && pos - left < 2
                invariant
                    self.wf(),
                    same_input(self, old(self)),
                    input == self.input@,
                    flags == self.flags,
                    n == self.input@.len(),
                    left <= pos <= MAX_TOKENS + 1,
                    last_comment.wf(),
                    fuel2 >= n - self.pos + if more { 1int } else { 0int },
                    fill2 == fold_fill(
                        input,
                        flags,
                        Fs { x: self.lx(), pos: pos as int, left: left as int, more, last: last_comment },
                        2,
                        fuel2,
                    ),
                decreases self.length - self.pos + if more { 1int } else { 0int },
            {
                let ghost f = fuel2;
                self.current_idx = pos;
                more = self.tokenize();
                if more {
                    if self.tc(self.current_idx) == TT_COMMENT {
                        last_comment = self.current();
                    } else {
                        last_comment.category = BYTE_NULL;
                        pos += 1;
                    }
                }
                proof {
                    fuel2 = (f - 1) as nat;
                }
            }
            if pos - left < 2 {
                left = pos;
                continue;
            }
            let ghost f2 = Fs { x: self.lx(), pos: pos as int, left: left as int, more, last: last_comment };
            let ghost pre = *self;
            let ghost l0 = left as int;
            let ghost p0 = pos as int;
            let act = self.fold_two_tokens(&mut left, &mut pos);
            proof {
                lemma_two_step(&pre, self, l0, p0, left as int, pos as int, act);
            }
            match act {
                FoldAction::Continue => {
                    continue;
                },
                FoldAction::EarlyReturn(k) => {
                    proof {
                        let (win, a) = two_step(f2.x.w, f2.left, f2.pos);
                        assert(fill2 == f2);
                        assert(a == act);
                        assert(self.lx() == counted(with_window(f2, win.w, win.left, win.pos), win.add).x);
                        assert(fold_main(input, flags, top) == (k as int, self.lx()));
                    }
                    return k;
                },
                FoldAction::FallThrough => {},
            }
            let ghost f3 = Fs { x: self.lx(), pos: pos as int, left: left as int, more, last: last_comment };
            let ghost fill3 = fold_fill(input, flags, f3, 3, fill_fuel(input, f3));
            let ghost mut fuel3: nat = fill_fuel(input, f3);
            while more && pos <= MAX_TOKENS && pos - left < 3
                invariant
                    self.wf(),
                    same_input(self, old(self)),
                    input == self.input@,
                    flags == self.flags,
                    n == self.input@.len(),
                    left <= pos <= MAX_TOKENS + 1,
                    last_comment.wf(),
                    fuel3 >= n - self.pos + if more { 1int } else { 0int },
                    fill3 == fold_fill(
                        input,
                        flags,
                        Fs { x: self.lx(), pos: pos as int, left: left as int, more, last: last_comment },
                        3,
                        fuel3,
                    ),
                decreases self.length - self.pos + if more { 1int } else { 0int },
            {
                let ghost f = fuel3;
                self.current_idx = pos;
                more = self.tokenize();
                if more {
                    if self.tc(self.current_idx) == TT_COMMENT {
                        last_comment = self.current();
                    } else {
                        last_comment.category = BYTE_NULL;
                        pos += 1;
                    }
                }
                proof {
                    fuel3 = (f - 1) as nat;
                }
            }
            if pos - left < 3 {
                left = pos;
                continue;
            }
            let ghost pre3 = *self;
            let ghost l3 = left as int;
            let ghost p3 = pos as int;
            let hit = self.fold_three_tokens(&mut left, &mut pos);
            proof {
                lemma_three_step(&pre3, self, l3, p3, left as int, pos as int, hit);
            }
            if hit {
                continue;
            }
            left += 1;
        }
        if left < MAX_TOKENS && last_comment.category == TT_COMMENT {
            self.set_token(left, last_comment);
            left += 1;
        }
        if left > MAX_TOKENS {
            left = MAX_TOKENS;
        }
        left
    }

    /// Token `left` names a function that reads as a bareword unless called.
    pub fn is_disambiguated_function(&self, left: usize) -> (r: bool)
        requires
            self.wf(),
        ensures
            r == disambiguated_name(self.spec_token_val(left as int)),
    {
        let val = self.token_val_slice(left);
        matches_upper(&[85u8, 83, 69, 82, 95, 73, 68], val)
            || matches_upper(&[85u8, 83, 69, 82, 95, 78, 65, 77, 69], val)
            || matches_upper(&[68u8, 65, 84, 65, 66, 65, 83, 69], val)
            || matches_upper(&[80u8, 65, 83, 83, 87, 79, 82, 68], val)
            || matches_upper(&[85u8, 83, 69, 82], val)
            || matches_upper(&[67u8, 85, 82, 82, 69, 78, 84, 95, 85, 83, 69, 82], val)
            || matches_upper(&[67u8, 85, 82, 82, 69, 78, 84, 95, 68, 65, 84, 69], val)
            || matches_upper(&[67u8, 85, 82, 82, 69, 78, 84, 95, 84, 73, 77, 69], val)
            || matches_upper(&[67u8, 85, 82, 82, 69, 78, 84, 95, 84, 73, 77, 69, 83, 84, 65, 77, 80], val)
            || matches_upper(&[76u8, 79, 67, 65, 76, 84, 73, 77, 69], val)
            || matches_upper(&[76u8, 79, 67, 65, 76, 84, 73, 77, 69, 83, 84, 65, 77, 80], val)
    }

    /// The first five tokens form one of the patterns that collapse when the
    /// window overflows (`1o(1)`, `1,(1)`, `no(n)`, `no(1)`, `1),(1`, `n)o(n`).
    pub fn check_5token_collapse(&self) -> (r: bool)
        requires
            self.wf(),
        ensures
            r == five_collapse(self.token_vec@),
    {
        let t0 = self.tc(0);
        let t1 = self.tc(1);
        let t2 = self.tc(2);
        let t3 = self.tc(3);
        let t4 = self.tc(4);
        (t0 == TT_NUMBER && (t1 == TT_OPERATOR || t1 == TT_COMMA) && t2 == TT_LPAREN && t3 == TT_NUMBER
            && t4 == TT_RPAREN) || (t0 == TT_BAREWORD && t1 == TT_OPERATOR && t2 == TT_LPAREN && (t3
            == TT_BAREWORD || t3 == TT_NUMBER) && t4 == TT_RPAREN) || (t0 == TT_NUMBER && t1 == TT_RPAREN
            && t2 == TT_COMMA && t3 == TT_LPAREN && t4 == TT_NUMBER) || (t0 == TT_BAREWORD && t1
            == TT_RPAREN && t2 == TT_OPERATOR && t3 == TT_LPAREN && t4 == TT_BAREWORD)
    }
}

} // verus!
