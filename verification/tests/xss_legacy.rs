use libinjection::xss::legacy::html5::{Html5Flags, Html5ParseState, Html5State, Html5Token, Html5Type};
use libinjection::snapshot::XssHtmlContext;
use libinjection::xss::legacy::{html5_tokens, is_xss, Html5TokenKind};

#[test]
fn html5_smoke_ascii_word() {
    let mut h5 = Html5State::new(b"foo", Html5Flags::DataState);
    assert_eq!(h5.next_token(), Some(Html5Token { kind: Html5Type::DataText, value: b"foo" }));
    assert!(h5.next_token().is_none());
}

#[test]
fn is_xss_assertions() {
    assert!(is_xss(b"<!DOCTYPE html>", Html5Flags::DataState));
    assert!(is_xss(b"<IFrAME>", Html5Flags::DataState));
    assert!(!is_xss(b"<xxxx>", Html5Flags::DataState));
    assert!(!is_xss(b"hello", Html5Flags::DataState));
    assert!(is_xss(b"<img onclick=1>", Html5Flags::DataState));
    assert!(is_xss(b"<a href=javascript:alert(1)>", Html5Flags::DataState));
    assert!(is_xss(b"<a href=data:text/html,x>", Html5Flags::DataState));
    assert!(!is_xss(b"<a href=https://example.com>", Html5Flags::DataState));
    assert!(is_xss(b"<!--`-->", Html5Flags::DataState));
    assert!(is_xss(b"<!--[if IE]>", Html5Flags::DataState));
    assert!(is_xss(b"<!--xml?>", Html5Flags::DataState));
    assert!(!is_xss(b"<!--XML-->", Html5Flags::DataState));
    assert!(is_xss(b"<!--XMLx-->", Html5Flags::DataState));
}

#[test]
fn data_text_then_tag_name_open_and_close() {
    let mut h5 = Html5State::new(b"hello<script>", Html5Flags::DataState);
    assert_eq!(h5.next_token(), Some(Html5Token { kind: Html5Type::DataText, value: b"hello" }));
    assert_eq!(h5.pos, 5);
    assert_eq!(h5.state, Html5ParseState::Data);
    assert_eq!(h5.next_token(), Some(Html5Token { kind: Html5Type::TagNameOpen, value: b"script" }));
    assert_eq!(h5.pos, 12);
    assert_eq!(h5.state, Html5ParseState::InTag);
    assert_eq!(h5.next_token(), Some(Html5Token { kind: Html5Type::TagNameClose, value: b">" }));
    assert_eq!(h5.pos, 13);
    assert_eq!(h5.state, Html5ParseState::Data);
}

#[test]
fn value_no_quote_entry() {
    let mut h5 = Html5State::new(b"foo>", Html5Flags::ValueNoQuote);
    assert_eq!(h5.next_token(), Some(Html5Token { kind: Html5Type::AttrValue, value: b"foo" }));
    assert_eq!(h5.next_token(), Some(Html5Token { kind: Html5Type::TagNameClose, value: b">" }));
}

#[test]
fn value_single_quote_entry() {
    let mut h5 = Html5State::new(b"bar'", Html5Flags::ValueSingleQuote);
    assert_eq!(h5.next_token(), Some(Html5Token { kind: Html5Type::AttrValue, value: b"bar" }));
}

struct Case {
    input: &'static [u8],
    expect: &'static [(Html5Type, &'static [u8])],
}

const TOKENIZE_CASES: &[Case] = &[
    Case { input: b"<script>", expect: &[(Html5Type::TagNameOpen, b"script"), (Html5Type::TagNameClose, b">")] },
    Case {
        input: b"<script/>",
        expect: &[(Html5Type::TagNameOpen, b"script"), (Html5Type::TagNameSelfClose, b"/>")],
    },
    Case { input: b"</script>", expect: &[(Html5Type::TagClose, b"script")] },
    Case {
        input: b"<script  />",
        expect: &[(Html5Type::TagNameOpen, b"script"), (Html5Type::TagNameSelfClose, b"/>")],
    },
    Case { input: b"<script   >", expect: &[(Html5Type::TagNameOpen, b"script"), (Html5Type::TagNameClose, b">")] },
    Case {
        input: b"<script   \x0b >",
        expect: &[(Html5Type::TagNameOpen, b"script"), (Html5Type::TagNameClose, b">")],
    },
    Case { input: b"<!--xss-->", expect: &[(Html5Type::TagComment, b"xss")] },
    Case {
        input: b"<script foo>",
        expect: &[
            (Html5Type::TagNameOpen, b"script"),
            (Html5Type::AttrName, b"foo"),
            (Html5Type::TagNameClose, b">"),
        ],
    },
    Case {
        input: b"<script foo=xpto>",
        expect: &[
            (Html5Type::TagNameOpen, b"script"),
            (Html5Type::AttrName, b"foo"),
            (Html5Type::AttrValue, b"xpto"),
            (Html5Type::TagNameClose, b">"),
        ],
    },
    Case {
        input: b"<script foo='xpto'>",
        expect: &[
            (Html5Type::TagNameOpen, b"script"),
            (Html5Type::AttrName, b"foo"),
            (Html5Type::AttrValue, b"xpto"),
            (Html5Type::TagNameClose, b">"),
        ],
    },
    Case { input: b"<!DOCTYPE html>", expect: &[(Html5Type::DocType, b"DOCTYPE html")] },
    Case { input: b"<!doctype html>", expect: &[(Html5Type::DocType, b"doctype html")] },
    Case { input: b"<?foo>", expect: &[(Html5Type::TagComment, b"foo")] },
    Case { input: b"<%foo%>", expect: &[(Html5Type::TagComment, b"foo")] },
    Case { input: b"<!foo>", expect: &[(Html5Type::TagComment, b"foo")] },
    Case { input: b"<!--xss-->", expect: &[(Html5Type::TagComment, b"xss")] },
    Case { input: b"<script2>", expect: &[(Html5Type::TagNameOpen, b"script2"), (Html5Type::TagNameClose, b">")] },
    Case {
        input: b"<scr\0ipt>",
        expect: &[(Html5Type::TagNameOpen, b"scr\0ipt"), (Html5Type::TagNameClose, b">")],
    },
];

#[test]
fn tokenizes_in_tag_cases() {
    for case in TOKENIZE_CASES {
        let mut h5 = Html5State::new(case.input, Html5Flags::DataState);
        for &(kind, value) in case.expect {
            assert_eq!(h5.next_token(), Some(Html5Token { kind, value }), "input={:?}", case.input);
        }
        assert!(h5.next_token().is_none(), "input={:?}", case.input);
    }
}

#[test]
fn html5_tokens_lists_kinds_and_slices_in_order() {
    assert_eq!(html5_tokens(b"foo", XssHtmlContext::Data), vec![(Html5TokenKind::DataText, &b"foo"[..])]);
    assert_eq!(
        html5_tokens(b"foo>", XssHtmlContext::AttrUnquoted),
        vec![(Html5TokenKind::AttrValue, &b"foo"[..]), (Html5TokenKind::TagNameClose, &b">"[..])]
    );
    assert!(html5_tokens(b"", XssHtmlContext::Data).is_empty());
}
