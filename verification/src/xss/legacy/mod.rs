//! Legacy XSS path: HTML5 tokenizer and deny lists.
pub mod deny_list;
pub mod deny;
pub mod html5;
pub mod html5_lex;

use vstd::prelude::*;
use crate::snapshot::XssHtmlContext;
use crate::xss::legacy::deny::{
    is_deny_attr, is_deny_comment, is_deny_tag, is_deny_url, spec_deny_attr, spec_is_deny_comment,
    spec_is_deny_tag, spec_is_deny_url,
};
use crate::xss::legacy::deny_list::DenyAttrKind;
use crate::xss::legacy::html5::{doctype_body, slice_in, Html5Flags, Html5State, Html5Type};
use crate::xss::legacy::html5_lex::{next, Cursor, Lexeme};

verus! {

/// A run of bytes that the deny lists flag: a denied tag name, comment body,
/// attribute name (denied or inline style) or URL, or a DOCTYPE body.
pub open spec fn xss_witness(v: Seq<u8>) -> bool {
    ||| spec_is_deny_tag(v)
    ||| spec_is_deny_comment(v)
    ||| spec_deny_attr(v) == DenyAttrKind::Deny
    ||| spec_deny_attr(v) == DenyAttrKind::Style
    ||| spec_is_deny_url(v)
    ||| doctype_body(v)
}

/// Some run of `input` is flagged by the deny lists.
pub open spec fn has_xss_witness(input: Seq<u8>) -> bool {
    exists|a: int, b: int| 0 <= a <= b <= input.len() && #[trigger] xss_witness(input.subrange(a, b))
}

/// A flagged token value that is a run of `input` shows a witness in `input`.
proof fn lemma_witness(v: Seq<u8>, input: Seq<u8>, lo: int, hi: int)
    requires
        slice_in(v, input, lo, hi),
        0 <= lo,
        hi <= input.len(),
        xss_witness(v),
    ensures
        has_xss_witness(input),
{
    let (a, b) = choose|a: int, b: int| lo <= a <= b <= hi && v == #[trigger] input.subrange(a, b);
    assert(xss_witness(input.subrange(a, b)));
}

/// What one token means to detection, given the kind of the attribute whose
/// value may follow: whether it is flagged, and the attribute kind after it.
pub open spec fn token_verdict(kind: Html5Type, v: Seq<u8>, attr: DenyAttrKind) -> (bool, DenyAttrKind) {
    match kind {
        Html5Type::DocType => (true, attr),
        Html5Type::TagComment => (spec_is_deny_comment(v), DenyAttrKind::NotListed),
        Html5Type::TagNameOpen => (spec_is_deny_tag(v), DenyAttrKind::NotListed),
        Html5Type::AttrName => {
            let k = spec_deny_attr(v);
            (k == DenyAttrKind::Deny || k == DenyAttrKind::Style, k)
        },
        Html5Type::AttrValue => {
            let hit = match attr {
                DenyAttrKind::Url => spec_is_deny_url(v),
                DenyAttrKind::Indirect => {
                    let k = spec_deny_attr(v);
                    k == DenyAttrKind::Deny || k == DenyAttrKind::Style
                },
                _ => false,
            };
            (hit, DenyAttrKind::NotListed)
        },
        _ => (false, DenyAttrKind::NotListed),
    }
}

/// Some token among the next `fuel` ones from cursor `c` is flagged
/// (`attr` is the kind of the attribute just named).
pub open spec fn xss_scan(input: Seq<u8>, c: Cursor, attr: DenyAttrKind, fuel: nat) -> bool
    decreases fuel,
{
    if fuel == 0 {
        false
    } else {
        match next(input, c).tok {
            None => false,
            Some(l) => {
                let (hit, after) = token_verdict(l.kind, input.subrange(l.start, l.end), attr);
                hit || xss_scan(input, next(input, c).at, after, (fuel - 1) as nat)
            },
        }
    }
}

/// Some token of `input`, tokenized from the context `flags`, is flagged
/// (each token consumes input, so twice its length bounds their number).
#[verifier::opaque]
pub open spec fn xss_in_context(input: Seq<u8>, flags: Html5Flags) -> bool {
    xss_scan(input, Html5State::start_cursor(flags), DenyAttrKind::NotListed, (2 * input.len() + 2) as nat)
}

/// Run detection in one HTML context: a DOCTYPE, a denied tag or comment, a
/// denied or style attribute, or a denied URL (or indirect attribute) value.
pub fn is_xss(input: &[u8], flags: Html5Flags) -> (r: bool)
    ensures
        r == xss_in_context(input@, flags),
        r ==> has_xss_witness(input@),
        input@.len() == 0 ==> !r,
{
    let mut h5 = Html5State::new(input, flags);
    let mut attr_kind = DenyAttrKind::NotListed;
    let ghost mut fuel: nat = (2 * input@.len() + 2) as nat;
    proof {
        reveal(xss_in_context);
    }
    loop
        invariant
            h5.wf(),
            h5.input == input,
            fuel >= h5.remaining(),
            xss_in_context(input@, flags) == xss_scan(input@, h5.cursor(), attr_kind, fuel),
        decreases h5.remaining(),
    {
        let ghost before = h5.pos as int;
        let ghost c = h5.cursor();
        let ghost f = fuel;
        let tok = match h5.next_token() {
            Some(t) => t,
            None => {
                proof {
                    if f > 0 {
                        assert(next(input@, c).tok is None);
                    }
                }
                return false;
            },
        };
        proof {
            assert(f > 0);
            fuel = (f - 1) as nat;
        }
        proof {
            assert(slice_in(tok.value@, input@, 0, input@.len() as int)) by {
                let (a, b) = choose|a: int, b: int|
                    before <= a <= b <= h5.pos && tok.value@ == #[trigger] input@.subrange(a, b);
                assert(0 <= a <= b <= input@.len());
            }
        }
        match tok.kind {
            Html5Type::DocType => {
                proof {
                    lemma_witness(tok.value@, input@, 0, input@.len() as int);
                }
                return true;
            },
            Html5Type::TagComment => {
                if is_deny_comment(tok.value) {
                    proof {
                        lemma_witness(tok.value@, input@, 0, input@.len() as int);
                    }
                    return true;
                }
                attr_kind = DenyAttrKind::NotListed;
            },
            Html5Type::TagNameOpen => {
                if is_deny_tag(tok.value) {
                    proof {
                        lemma_witness(tok.value@, input@, 0, input@.len() as int);
                    }
                    return true;
                }
                attr_kind = DenyAttrKind::NotListed;
            },
            Html5Type::AttrName => {
                attr_kind = is_deny_attr(tok.value);
                if attr_kind == DenyAttrKind::Deny || attr_kind == DenyAttrKind::Style {
                    proof {
                        lemma_witness(tok.value@, input@, 0, input@.len() as int);
                    }
                    return true;
                }
            },
            Html5Type::AttrValue => {
                let hit = match attr_kind {
                    DenyAttrKind::Url => is_deny_url(tok.value),
                    DenyAttrKind::Indirect => {
                        let k = is_deny_attr(tok.value);
                        k == DenyAttrKind::Deny || k == DenyAttrKind::Style
                    },
                    _ => false,
                };
                attr_kind = DenyAttrKind::NotListed;
                if hit {
                    proof {
                        lemma_witness(tok.value@, input@, 0, input@.len() as int);
                    }
                    return true;
                }
            },
            _ => {
                attr_kind = DenyAttrKind::NotListed;
            },
        }
    }
}

/// Some of the five HTML entry contexts flags `input`.
pub open spec fn legacy_xss(input: Seq<u8>) -> bool {
    ||| xss_in_context(input, Html5Flags::DataState)
    ||| xss_in_context(input, Html5Flags::ValueNoQuote)
    ||| xss_in_context(input, Html5Flags::ValueSingleQuote)
    ||| xss_in_context(input, Html5Flags::ValueDoubleQuote)
    ||| xss_in_context(input, Html5Flags::ValueBackQuote)
}

/// True if any of the five HTML contexts flags the input.
pub fn detect(input: &[u8]) -> (r: bool)
    ensures
        r == legacy_xss(input@),
        r ==> has_xss_witness(input@),
        input@.len() == 0 ==> !r,
{
    is_xss(input, Html5Flags::DataState) || is_xss(input, Html5Flags::ValueNoQuote) || is_xss(
        input,
        Html5Flags::ValueSingleQuote,
    ) || is_xss(input, Html5Flags::ValueDoubleQuote) || is_xss(input, Html5Flags::ValueBackQuote)
}

/// Public token kind of the HTML5 tokenizer.
#[derive(Clone, Copy, Debug, PartialEq, Eq, Structural)]
pub enum Html5TokenKind {
    /// Raw text / CDATA body.
    DataText,
    /// Opening tag name.
    TagNameOpen,
    /// `>` closing an open tag.
    TagNameClose,
    /// `/>` self-closing end.
    TagNameSelfClose,
    /// Close tag name (`</name>`).
    TagClose,
    /// Attribute name.
    AttrName,
    /// Attribute value.
    AttrValue,
    /// Comment or bogus comment body.
    TagComment,
    /// DOCTYPE declaration body.
    DocType,
}

impl Html5TokenKind {
    /// The public kind of a tokenizer kind (tag data reads as an open tag name).
    pub open spec fn spec_from_type(kind: Html5Type) -> Html5TokenKind {
        match kind {
            Html5Type::DataText => Html5TokenKind::DataText,
            Html5Type::TagNameOpen => Html5TokenKind::TagNameOpen,
            Html5Type::TagData => Html5TokenKind::TagNameOpen,
            Html5Type::TagNameClose => Html5TokenKind::TagNameClose,
            Html5Type::TagNameSelfClose => Html5TokenKind::TagNameSelfClose,
            Html5Type::TagClose => Html5TokenKind::TagClose,
            Html5Type::AttrName => Html5TokenKind::AttrName,
            Html5Type::AttrValue => Html5TokenKind::AttrValue,
            Html5Type::TagComment => Html5TokenKind::TagComment,
            Html5Type::DocType => Html5TokenKind::DocType,
        }
    }

    /// The public kind of a tokenizer kind (tag data reads as an open tag name).
    pub fn from_type(kind: Html5Type) -> (r: Html5TokenKind)
        ensures
            r == Self::spec_from_type(kind),
    {
        match kind {
            Html5Type::DataText => Html5TokenKind::DataText,
            Html5Type::TagNameOpen => Html5TokenKind::TagNameOpen,
            Html5Type::TagData => Html5TokenKind::TagNameOpen,
            Html5Type::TagNameClose => Html5TokenKind::TagNameClose,
            Html5Type::TagNameSelfClose => Html5TokenKind::TagNameSelfClose,
            Html5Type::TagClose => Html5TokenKind::TagClose,
            Html5Type::AttrName => Html5TokenKind::AttrName,
            Html5Type::AttrValue => Html5TokenKind::AttrValue,
            Html5Type::TagComment => Html5TokenKind::TagComment,
            Html5Type::DocType => Html5TokenKind::DocType,
        }
    }
}

/// The tokenizer flags an HTML entry context starts in.
pub open spec fn context_flags(context: XssHtmlContext) -> Html5Flags {
    match context {
        XssHtmlContext::Data => Html5Flags::DataState,
        XssHtmlContext::AttrUnquoted => Html5Flags::ValueNoQuote,
        XssHtmlContext::AttrSingle => Html5Flags::ValueSingleQuote,
        XssHtmlContext::AttrDouble => Html5Flags::ValueDoubleQuote,
        XssHtmlContext::AttrBacktick => Html5Flags::ValueBackQuote,
    }
}

/// The tokenizer flags an HTML entry context starts in.
fn html5_flags(context: XssHtmlContext) -> (r: Html5Flags)
    ensures
        r == context_flags(context),
{
    match context {
        XssHtmlContext::Data => Html5Flags::DataState,
        XssHtmlContext::AttrUnquoted => Html5Flags::ValueNoQuote,
        XssHtmlContext::AttrSingle => Html5Flags::ValueSingleQuote,
        XssHtmlContext::AttrDouble => Html5Flags::ValueDoubleQuote,
        XssHtmlContext::AttrBacktick => Html5Flags::ValueBackQuote,
    }
}

/// The tokens among the next `fuel` ones from cursor `c`, in order.
pub open spec fn lexemes_from(input: Seq<u8>, c: Cursor, fuel: nat) -> Seq<Lexeme>
    decreases fuel,
{
    if fuel == 0 {
        seq![]
    } else {
        match next(input, c).tok {
            None => seq![],
            Some(l) => seq![l] + lexemes_from(input, next(input, c).at, (fuel - 1) as nat),
        }
    }
}

/// The HTML5 tokens of `input` read from `context`, in input order (each
/// token consumes input, so twice its length bounds their number).
pub open spec fn html5_lexemes(input: Seq<u8>, context: XssHtmlContext) -> Seq<Lexeme> {
    lexemes_from(input, Html5State::start_cursor(context_flags(context)), (2 * input.len() + 2) as nat)
}

/// The HTML5 tokens of `input` read from `context`, in input order: each
/// token's public kind and its bytes, a slice of `input`.
pub fn html5_tokens<'a>(input: &'a [u8], context: XssHtmlContext) -> (r: Vec<(Html5TokenKind, &'a [u8])>)
    ensures
        r@.len() == html5_lexemes(input@, context).len(),
        forall|i: int|
            0 <= i < r@.len() ==> {
                let l = #[trigger] html5_lexemes(input@, context)[i];
                &&& r@[i].0 == Html5TokenKind::spec_from_type(l.kind)
                &&& r@[i].1@ == input@.subrange(l.start, l.end)
                &&& slice_in(r@[i].1@, input@, 0, input@.len() as int)
            },
{
    let flags = html5_flags(context);
    let mut h5 = Html5State::new(input, flags);
    let mut out: Vec<(Html5TokenKind, &'a [u8])> = Vec::new();
    let ghost mut done: Seq<Lexeme> = seq![];
    let ghost mut fuel: nat = (2 * input@.len() + 2) as nat;
    loop
        invariant
            h5.wf(),
            h5.input == input,
            fuel >= h5.remaining(),
            html5_lexemes(input@, context) == done + lexemes_from(input@, h5.cursor(), fuel),
            out@.len() == done.len(),
            forall|i: int|
                0 <= i < out@.len() ==> {
                    let l = #[trigger] done[i];
                    &&& out@[i].0 == Html5TokenKind::spec_from_type(l.kind)
                    &&& out@[i].1@ == input@.subrange(l.start, l.end)
                    &&& slice_in(out@[i].1@, input@, 0, input@.len() as int)
                },
        decreases h5.remaining(),
    {
        let ghost c = h5.cursor();
        let ghost f = fuel;
        let ghost before = h5.pos as int;
        match h5.next_token() {
            Some(tok) => {
                let ghost x = next(input@, c).tok->0;
                proof {
                    assert(f > 0);
                    assert(slice_in(tok.value@, input@, 0, input@.len() as int)) by {
                        let (a, b) = choose|a: int, b: int|
                            before <= a <= b <= h5.pos && tok.value@ == #[trigger] input@.subrange(a, b);
                        assert(0 <= a <= b <= input@.len());
                    }
                    assert(lexemes_from(input@, c, f) == seq![x] + lexemes_from(input@, h5.cursor(), (f - 1) as nat));
                    assert(done + (seq![x] + lexemes_from(input@, h5.cursor(), (f - 1) as nat)) =~= done.push(x)
                        + lexemes_from(input@, h5.cursor(), (f - 1) as nat));
                    fuel = (f - 1) as nat;
                    done = done.push(x);
                }
                out.push((Html5TokenKind::from_type(tok.kind), tok.value));
            },
            None => {
                proof {
                    if f > 0 {
                        assert(next(input@, c).tok is None);
                    }
                    assert(done + lexemes_from(input@, c, f) =~= done);
                }
                return out;
            },
        }
    }
}

/// `visit` was handed the token `l` of `input`: its public kind and a slice
/// holding its bytes.
pub open spec fn handed<F: FnMut(Html5TokenKind, &[u8])>(visit: F, input: Seq<u8>, l: Lexeme) -> bool {
    exists|v: &[u8]|
        v@ == input.subrange(l.start, l.end) && #[trigger] call_ensures(
            visit,
            (Html5TokenKind::spec_from_type(l.kind), v),
            (),
        )
}

/// Walk the HTML5 tokens of `input` in `context`, handing each kind and its
/// bytes (a slice of `input`) to `visit`, in input order, without
/// allocating. The contract states that every token of `html5_lexemes`
/// (those `html5_tokens` returns) is handed to `visit`; how many calls are
/// made and in what order is not stated, as a call leaves no trace in the
/// visitor's specification.
pub fn html5_visit<F: FnMut(Html5TokenKind, &[u8])>(input: &[u8], context: XssHtmlContext, visit: F)
    requires
        forall|k: Html5TokenKind, v: &[u8]| call_requires(visit, (k, v)),
    ensures
        forall|i: int|
            0 <= i < html5_lexemes(input@, context).len() ==> handed(
                visit,
                input@,
                #[trigger] html5_lexemes(input@, context)[i],
            ),
{
    let mut visit_mut = visit;
    let flags = html5_flags(context);
    let mut h5 = Html5State::new(input, flags);
    let ghost mut done: Seq<Lexeme> = seq![];
    let ghost mut fuel: nat = (2 * input@.len() + 2) as nat;
    loop
        invariant
            h5.wf(),
            h5.input == input,
            fuel >= h5.remaining(),
            html5_lexemes(input@, context) == done + lexemes_from(input@, h5.cursor(), fuel),
            visit_mut == visit,
            forall|k: Html5TokenKind, v: &[u8]| call_requires(visit, (k, v)),
            forall|i: int| 0 <= i < done.len() ==> handed(visit, input@, #[trigger] done[i]),
        decreases h5.remaining(),
    {
        let ghost c = h5.cursor();
        let ghost f = fuel;
        match h5.next_token() {
            Some(tok) => {
                let kind = Html5TokenKind::from_type(tok.kind);
                let ghost x = next(input@, c).tok->0;
                proof {
                    assert(f > 0);
                    assert(lexemes_from(input@, c, f) == seq![x] + lexemes_from(input@, h5.cursor(), (f - 1) as nat));
                    assert(done + (seq![x] + lexemes_from(input@, h5.cursor(), (f - 1) as nat)) =~= done.push(x)
                        + lexemes_from(input@, h5.cursor(), (f - 1) as nat));
                    assert(kind == Html5TokenKind::spec_from_type(x.kind));
                    assert(tok.value@ == input@.subrange(x.start, x.end));
                    fuel = (f - 1) as nat;
                }
                visit_mut(kind, tok.value);
                proof {
                    broadcast use vstd::function::group_function_axioms;

                    assert(call_ensures(visit, (kind, tok.value), ()));
                    assert(handed(visit, input@, x));
                    assert forall|i: int| 0 <= i < done.push(x).len() implies handed(
                        visit,
                        input@,
                        #[trigger] done.push(x)[i],
                    ) by {
                        if i < done.len() {
                            assert(done.push(x)[i] == done[i]);
                        }
                    }
                    done = done.push(x);
                }
            },
            None => {
                proof {
                    if f > 0 {
                        assert(next(input@, c).tok is None);
                    }
                    assert(done + lexemes_from(input@, c, f) =~= done);
                }
                return;
            },
        }
    }
}

} // verus!
