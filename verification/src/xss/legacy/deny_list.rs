//! Deny lists of the legacy XSS engine: tags, attributes and event names.
use vstd::prelude::*;
use crate::sqli::legacy::data::bytes_eq;

verus! {

/// How an attribute name is treated.
#[derive(Clone, Copy, Debug, PartialEq, Eq, Structural)]
pub enum DenyAttrKind {
    /// Not on the deny list.
    NotListed,
    /// The attribute itself is an XSS vector.
    Deny,
    /// The attribute takes a URL: its value is checked against the URL deny list.
    Url,
    /// An inline style (`style`, `filter`): an XSS vector.
    Style,
    /// The value names another attribute (SVG `attributename`).
    Indirect,
}

/// Tag names that are XSS vectors (upper case).
pub open spec fn deny_tag_word(w: Seq<u8>) -> bool {
    w == seq![65u8, 80, 80, 76, 69, 84]
        || w == seq![66u8, 65, 83, 69]
        || w == seq![67u8, 79, 77, 77, 69, 78, 84]
        || w == seq![69u8, 77, 66, 69, 68]
        || w == seq![70u8, 82, 65, 77, 69]
        || w == seq![70u8, 82, 65, 77, 69, 83, 69, 84]
        || w == seq![72u8, 65, 78, 68, 76, 69, 82]
        || w == seq![73u8, 70, 82, 65, 77, 69]
        || w == seq![73u8, 77, 80, 79, 82, 84]
        || w == seq![73u8, 83, 73, 78, 68, 69, 88]
        || w == seq![76u8, 73, 78, 75]
        || w == seq![76u8, 73, 83, 84, 69, 78, 69, 82]
        || w == seq![77u8, 69, 84, 65]
        || w == seq![78u8, 79, 83, 67, 82, 73, 80, 84]
        || w == seq![79u8, 66, 74, 69, 67, 84]
        || w == seq![83u8, 67, 82, 73, 80, 84]
        || w == seq![83u8, 84, 89, 76, 69]
        || w == seq![86u8, 77, 76, 70, 82, 65, 77, 69]
        || w == seq![88u8, 77, 76]
        || w == seq![88u8, 83, 83]
}

/// `w` is one of the denied tag names.
pub fn is_deny_tag_word(w: &[u8]) -> (r: bool)
    ensures
        r == deny_tag_word(w@),
{
    if w.len() == 3 {
        if bytes_eq(w, &[88u8, 77, 76]) {
            return true;
        }
        if bytes_eq(w, &[88u8, 83, 83]) {
            return true;
        }
        return false;
    }
    if w.len() == 4 {
        if bytes_eq(w, &[66u8, 65, 83, 69]) {
            return true;
        }
        if bytes_eq(w, &[76u8, 73, 78, 75]) {
            return true;
        }
        if bytes_eq(w, &[77u8, 69, 84, 65]) {
            return true;
        }
        return false;
    }
    if w.len() == 5 {
        if bytes_eq(w, &[69u8, 77, 66, 69, 68]) {
            return true;
        }
        if bytes_eq(w, &[70u8, 82, 65, 77, 69]) {
            return true;
        }
        if bytes_eq(w, &[83u8, 84, 89, 76, 69]) {
            return true;
        }
        return false;
    }
    if w.len() == 6 {
        if bytes_eq(w, &[65u8, 80, 80, 76, 69, 84]) {
            return true;
        }
        if bytes_eq(w, &[73u8, 70, 82, 65, 77, 69]) {
            return true;
        }
        if bytes_eq(w, &[73u8, 77, 80, 79, 82, 84]) {
            return true;
        }
        if bytes_eq(w, &[79u8, 66, 74, 69, 67, 84]) {
            return true;
        }
        if bytes_eq(w, &[83u8, 67, 82, 73, 80, 84]) {
            return true;
        }
        return false;
    }
    if w.len() == 7 {
        if bytes_eq(w, &[67u8, 79, 77, 77, 69, 78, 84]) {
            return true;
        }
        if bytes_eq(w, &[72u8, 65, 78, 68, 76, 69, 82]) {
            return true;
        }
        if bytes_eq(w, &[73u8, 83, 73, 78, 68, 69, 88]) {
            return true;
        }
        return false;
    }
    if w.len() == 8 {
        if bytes_eq(w, &[70u8, 82, 65, 77, 69, 83, 69, 84]) {
            return true;
        }
        if bytes_eq(w, &[76u8, 73, 83, 84, 69, 78, 69, 82]) {
            return true;
        }
        if bytes_eq(w, &[78u8, 79, 83, 67, 82, 73, 80, 84]) {
            return true;
        }
        if bytes_eq(w, &[86u8, 77, 76, 70, 82, 65, 77, 69]) {
            return true;
        }
        return false;
    }
    false
}

/// Event names (after the `ON` prefix) whose handlers are XSS vectors (upper case).
pub open spec fn deny_event_word(w: Seq<u8>) -> bool {
    w == seq![65u8, 66, 79, 82, 84]
        || w == seq![65u8, 67, 84, 73, 86, 65, 84, 69]
        || w == seq![65u8, 70, 84, 69, 82, 80, 82, 73, 78, 84]
        || w == seq![65u8, 70, 84, 69, 82, 85, 80, 68, 65, 84, 69]
        || w == seq![65u8, 78, 73, 77, 65, 84, 73, 79, 78, 69, 78, 68]
        || w == seq![65u8, 78, 73, 77, 65, 84, 73, 79, 78, 73, 84, 69, 82, 65, 84, 73, 79, 78]
        || w == seq![65u8, 78, 73, 77, 65, 84, 73, 79, 78, 83, 84, 65, 82, 84]
        || w == seq![65u8, 85, 84, 79, 67, 79, 77, 80, 76, 69, 84, 69]
        || w == seq![65u8, 85, 84, 79, 67, 79, 77, 80, 76, 69, 84, 69, 69, 82, 82, 79, 82]
        || w == seq![66u8, 69, 70, 79, 82, 69, 65, 67, 84, 73, 86, 65, 84, 69]
        || w == seq![66u8, 69, 70, 79, 82, 69, 67, 79, 80, 89]
        || w == seq![66u8, 69, 70, 79, 82, 69, 67, 85, 84]
        || w == seq![66u8, 69, 70, 79, 82, 69, 68, 69, 65, 67, 84, 73, 86, 65, 84, 69]
        || w == seq![66u8, 69, 70, 79, 82, 69, 69, 68, 73, 84, 70, 79, 67, 85, 83]
        || w == seq![66u8, 69, 70, 79, 82, 69, 80, 65, 83, 84, 69]
        || w == seq![66u8, 69, 70, 79, 82, 69, 80, 82, 73, 78, 84]
        || w == seq![66u8, 69, 70, 79, 82, 69, 85, 78, 76, 79, 65, 68]
        || w == seq![66u8, 69, 70, 79, 82, 69, 85, 80, 68, 65, 84, 69]
        || w == seq![66u8, 69, 71, 73, 78]
        || w == seq![66u8, 76, 85, 82]
        || w == seq![66u8, 79, 85, 78, 67, 69]
        || w == seq![67u8, 65, 78, 80, 76, 65, 89]
        || w == seq![67u8, 65, 78, 80, 76, 65, 89, 84, 72, 82, 79, 85, 71, 72]
        || w == seq![67u8, 69, 76, 76, 67, 72, 65, 78, 71, 69]
        || w == seq![67u8, 72, 65, 78, 71, 69]
        || w == seq![67u8, 72, 69, 67, 75, 73, 78, 71]
        || w == seq![67u8, 76, 73, 67, 75]
        || w == seq![67u8, 76, 79, 83, 69]
        || w == seq![67u8, 79, 77, 80, 76, 69, 84, 69]
        || w == seq![67u8, 79, 78, 78, 69, 67, 84]
        || w == seq![67u8, 79, 78, 84, 69, 88, 84, 77, 69, 78, 85]
        || w == seq![67u8, 79, 78, 84, 82, 79, 76, 83, 69, 76, 69, 67, 84]
        || w == seq![67u8, 79, 80, 89]
        || w == seq![67u8, 85, 69, 67, 72, 65, 78, 71, 69]
        || w == seq![67u8, 85, 84]
        || w == seq![68u8, 65, 84, 65, 65, 86, 65, 73, 76, 65, 66, 76, 69]
        || w == seq![68u8, 65, 84, 65, 83, 69, 84, 67, 72, 65, 78, 71, 69, 68]
        || w == seq![68u8, 65, 84, 65, 83, 69, 84, 67, 79, 77, 80, 76, 69, 84, 69]
        || w == seq![68u8, 66, 76, 67, 76, 73, 67, 75]
        || w == seq![68u8, 69, 65, 67, 84, 73, 86, 65, 84, 69]
        || w == seq![68u8, 79, 87, 78, 76, 79, 65, 68, 73, 78, 71]
        || w == seq![68u8, 82, 65, 71]
        || w == seq![68u8, 82, 65, 71, 69, 78, 68]
        || w == seq![68u8, 82, 65, 71, 69, 78, 84, 69, 82]
        || w == seq![68u8, 82, 65, 71, 69, 88, 73, 84]
        || w == seq![68u8, 82, 65, 71, 76, 69, 65, 86, 69]
        || w == seq![68u8, 82, 65, 71, 79, 86, 69, 82]
        || w == seq![68u8, 82, 65, 71, 83, 84, 65, 82, 84]
        || w == seq![68u8, 82, 79, 80]
        || w == seq![68u8, 85, 82, 65, 84, 73, 79, 78, 67, 72, 65, 78, 71, 69]
        || w == seq![69u8, 77, 80, 84, 73, 69, 68]
        || w == seq![69u8, 78, 68]
        || w == seq![69u8, 78, 68, 69, 68]
        || w == seq![69u8, 82, 82, 79, 82]
        || w == seq![69u8, 82, 82, 79, 82, 85, 80, 68, 65, 84, 69]
        || w == seq![70u8, 73, 76, 84, 69, 82, 67, 72, 65, 78, 71, 69]
        || w == seq![70u8, 73, 78, 73, 83, 72]
        || w == seq![70u8, 79, 67, 85, 83]
        || w == seq![70u8, 79, 67, 85, 83, 73, 78]
        || w == seq![70u8, 79, 67, 85, 83, 79, 85, 84]
        || w == seq![70u8, 79, 82, 77, 67, 72, 65, 78, 71, 69]
        || w == seq![70u8, 79, 82, 77, 73, 78, 80, 85, 84]
        || w == seq![72u8, 65, 83, 72, 67, 72, 65, 78, 71, 69]
        || w == seq![72u8, 69, 76, 80]
        || w == seq![73u8, 78, 80, 85, 84]
        || w == seq![73u8, 78, 86, 65, 76, 73, 68]
        || w == seq![75u8, 69, 89, 68, 79, 87, 78]
        || w == seq![75u8, 69, 89, 80, 82, 69, 83, 83]
        || w == seq![75u8, 69, 89, 85, 80]
        || w == seq![76u8, 65, 78, 71, 85, 65, 71, 69, 67, 72, 65, 78, 71, 69]
        || w == seq![76u8, 65, 89, 79, 85, 84, 67, 79, 77, 80, 76, 69, 84, 69]
        || w == seq![76u8, 79, 65, 68]
        || w == seq![76u8, 79, 65, 68, 69, 68, 68, 65, 84, 65]
        || w == seq![76u8, 79, 65, 68, 69, 68, 77, 69, 84, 65, 68, 65, 84, 65]
        || w == seq![76u8, 79, 65, 68, 83, 84, 65, 82, 84]
        || w == seq![76u8, 79, 83, 69, 67, 65, 80, 84, 85, 82, 69]
        || w == seq![77u8, 69, 83, 83, 65, 71, 69]
        || w == seq![77u8, 79, 85, 83, 69, 68, 79, 87, 78]
        || w == seq![77u8, 79, 85, 83, 69, 69, 78, 84, 69, 82]
        || w == seq![77u8, 79, 85, 83, 69, 76, 69, 65, 86, 69]
        || w == seq![77u8, 79, 85, 83, 69, 77, 79, 86, 69]
        || w == seq![77u8, 79, 85, 83, 69, 79, 85, 84]
        || w == seq![77u8, 79, 85, 83, 69, 79, 86, 69, 82]
        || w == seq![77u8, 79, 85, 83, 69, 85, 80]
        || w == seq![77u8, 79, 85, 83, 69, 87, 72, 69, 69, 76]
        || w == seq![77u8, 79, 86, 69]
        || w == seq![77u8, 79, 86, 69, 69, 78, 68]
        || w == seq![77u8, 79, 86, 69, 83, 84, 65, 82, 84]
        || w == seq![78u8, 79, 85, 80, 68, 65, 84, 69]
        || w == seq![79u8, 66, 83, 79, 76, 69, 84, 69]
        || w == seq![79u8, 70, 70, 76, 73, 78, 69]
        || w == seq![79u8, 78, 76, 73, 78, 69]
        || w == seq![79u8, 80, 69, 78]
        || w == seq![79u8, 86, 69, 82, 70, 76, 79, 87, 67, 72, 65, 78, 71, 69, 68]
        || w == seq![80u8, 65, 71, 69, 72, 73, 68, 69]
        || w == seq![80u8, 65, 71, 69, 83, 72, 79, 87]
        || w == seq![80u8, 65, 83, 84, 69]
        || w == seq![80u8, 65, 85, 83, 69]
        || w == seq![80u8, 76, 65, 89]
        || w == seq![80u8, 76, 65, 89, 73, 78, 71]
        || w == seq![80u8, 79, 80, 83, 84, 65, 84, 69]
        || w == seq![80u8, 82, 79, 71, 82, 69, 83, 83]
        || w == seq![80u8, 82, 79, 80, 69, 82, 84, 89, 67, 72, 65, 78, 71, 69]
        || w == seq![82u8, 65, 84, 69, 67, 72, 65, 78, 71, 69]
        || w == seq![82u8, 69, 65, 68, 89, 83, 84, 65, 84, 69, 67, 72, 65, 78, 71, 69]
        || w == seq![82u8, 69, 80, 69, 65, 84]
        || w == seq![82u8, 69, 83, 69, 84]
        || w == seq![82u8, 69, 83, 73, 90, 69]
        || w == seq![82u8, 69, 83, 73, 90, 69, 69, 78, 68]
        || w == seq![82u8, 69, 83, 73, 90, 69, 83, 84, 65, 82, 84]
        || w == seq![82u8, 79, 87, 69, 78, 84, 69, 82]
        || w == seq![82u8, 79, 87, 69, 88, 73, 84]
        || w == seq![82u8, 79, 87, 83, 68, 69, 76, 69, 84, 69]
        || w == seq![82u8, 79, 87, 83, 73, 78, 83, 69, 82, 84, 69, 68]
        || w == seq![83u8, 67, 82, 79, 76, 76]
        || w == seq![83u8, 69, 65, 82, 67, 72]
        || w == seq![83u8, 69, 69, 75, 69, 68]
        || w == seq![83u8, 69, 69, 75, 73, 78, 71]
        || w == seq![83u8, 69, 76, 69, 67, 84]
        || w == seq![83u8, 69, 76, 69, 67, 84, 73, 79, 78, 67, 72, 65, 78, 71, 69]
        || w == seq![83u8, 69, 76, 69, 67, 84, 83, 84, 65, 82, 84]
        || w == seq![83u8, 72, 79, 87]
        || w == seq![83u8, 84, 65, 76, 76, 69, 68]
        || w == seq![83u8, 84, 65, 82, 84]
        || w == seq![83u8, 84, 79, 82, 65, 71, 69]
        || w == seq![83u8, 85, 66, 77, 73, 84]
        || w == seq![83u8, 85, 83, 80, 69, 78, 68]
        || w == seq![84u8, 73, 77, 69, 79, 85, 84]
        || w == seq![84u8, 73, 77, 69, 85, 80, 68, 65, 84, 69]
        || w == seq![84u8, 79, 71, 71, 76, 69]
        || w == seq![84u8, 79, 85, 67, 72, 67, 65, 78, 67, 69, 76]
        || w == seq![84u8, 79, 85, 67, 72, 69, 78, 68]
        || w == seq![84u8, 79, 85, 67, 72, 77, 79, 86, 69]
        || w == seq![84u8, 79, 85, 67, 72, 83, 84, 65, 82, 84]
        || w == seq![84u8, 82, 65, 78, 83, 73, 84, 73, 79, 78, 69, 78, 68]
        || w == seq![85u8, 78, 76, 79, 65, 68]
        || w == seq![85u8, 80, 68, 65, 84, 69, 82, 69, 65, 68, 89]
        || w == seq![85u8, 80, 71, 82, 65, 68, 69, 78, 69, 69, 68, 69, 68]
        || w == seq![86u8, 79, 76, 85, 77, 69, 67, 72, 65, 78, 71, 69]
        || w == seq![87u8, 65, 73, 84, 73, 78, 71]
        || w == seq![87u8, 69, 66, 75, 73, 84, 65, 78, 73, 77, 65, 84, 73, 79, 78, 69, 78, 68]
        || w == seq![87u8, 69, 66, 75, 73, 84, 65, 78, 73, 77, 65, 84, 73, 79, 78, 73, 84, 69, 82, 65, 84, 73, 79, 78]
        || w == seq![87u8, 69, 66, 75, 73, 84, 65, 78, 73, 77, 65, 84, 73, 79, 78, 83, 84, 65, 82, 84]
        || w == seq![87u8, 69, 66, 75, 73, 84, 84, 82, 65, 78, 83, 73, 84, 73, 79, 78, 69, 78, 68]
        || w == seq![87u8, 72, 69, 69, 76]
        || w == seq![90u8, 79, 79, 77]
}

/// `w` is one of the denied event names.
pub fn is_deny_event_word(w: &[u8]) -> (r: bool)
    ensures
        r == deny_event_word(w@),
{
    if w.len() == 3 {
        if bytes_eq(w, &[67u8, 85, 84]) {
            return true;
        }
        if bytes_eq(w, &[69u8, 78, 68]) {
            return true;
        }
        return false;
    }
    if w.len() == 4 {
        if bytes_eq(w, &[66u8, 76, 85, 82]) {
            return true;
        }
        if bytes_eq(w, &[67u8, 79, 80, 89]) {
            return true;
        }
        if bytes_eq(w, &[68u8, 82, 65, 71]) {
            return true;
        }
        if bytes_eq(w, &[68u8, 82, 79, 80]) {
            return true;
        }
        if bytes_eq(w, &[72u8, 69, 76, 80]) {
            return true;
        }
        if bytes_eq(w, &[76u8, 79, 65, 68]) {
            return true;
        }
        if bytes_eq(w, &[77u8, 79, 86, 69]) {
            return true;
        }
        if bytes_eq(w, &[79u8, 80, 69, 78]) {
            return true;
        }
        if bytes_eq(w, &[80u8, 76, 65, 89]) {
            return true;
        }
        if bytes_eq(w, &[83u8, 72, 79, 87]) {
            return true;
        }
        if bytes_eq(w, &[90u8, 79, 79, 77]) {
            return true;
        }
        return false;
    }
    if w.len() == 5 {
        if bytes_eq(w, &[65u8, 66, 79, 82, 84]) {
            return true;
        }
        if bytes_eq(w, &[66u8, 69, 71, 73, 78]) {
            return true;
        }
        if bytes_eq(w, &[67u8, 76, 73, 67, 75]) {
            return true;
        }
        if bytes_eq(w, &[67u8, 76, 79, 83, 69]) {
            return true;
        }
        if bytes_eq(w, &[69u8, 78, 68, 69, 68]) {
            return true;
        }
        if bytes_eq(w, &[69u8, 82, 82, 79, 82]) {
            return true;
        }
        if bytes_eq(w, &[70u8, 79, 67, 85, 83]) {
            return true;
        }
        if bytes_eq(w, &[73u8, 78, 80, 85, 84]) {
            return true;
        }
        if bytes_eq(w, &[75u8, 69, 89, 85, 80]) {
            return true;
        }
        if bytes_eq(w, &[80u8, 65, 83, 84, 69]) {
            return true;
        }
        if bytes_eq(w, &[80u8, 65, 85, 83, 69]) {
            return true;
        }
        if bytes_eq(w, &[82u8, 69, 83, 69, 84]) {
            return true;
        }
        if bytes_eq(w, &[83u8, 84, 65, 82, 84]) {
            return true;
        }
        if bytes_eq(w, &[87u8, 72, 69, 69, 76]) {
            return true;
        }
        return false;
    }
    if w.len() == 6 {
        if bytes_eq(w, &[66u8, 79, 85, 78, 67, 69]) {
            return true;
        }
        if bytes_eq(w, &[67u8, 72, 65, 78, 71, 69]) {
            return true;
        }
        if bytes_eq(w, &[70u8, 73, 78, 73, 83, 72]) {
            return true;
        }
        if bytes_eq(w, &[79u8, 78, 76, 73, 78, 69]) {
            return true;
        }
        if bytes_eq(w, &[82u8, 69, 80, 69, 65, 84]) {
            return true;
        }
        if bytes_eq(w, &[82u8, 69, 83, 73, 90, 69]) {
            return true;
        }
        if bytes_eq(w, &[83u8, 67, 82, 79, 76, 76]) {
            return true;
        }
        if bytes_eq(w, &[83u8, 69, 65, 82, 67, 72]) {
            return true;
        }
        if bytes_eq(w, &[83u8, 69, 69, 75, 69, 68]) {
            return true;
        }
        if bytes_eq(w, &[83u8, 69, 76, 69, 67, 84]) {
            return true;
        }
        if bytes_eq(w, &[83u8, 85, 66, 77, 73, 84]) {
            return true;
        }
        if bytes_eq(w, &[84u8, 79, 71, 71, 76, 69]) {
            return true;
        }
        if bytes_eq(w, &[85u8, 78, 76, 79, 65, 68]) {
            return true;
        }
        return false;
    }
    if w.len() == 7 {
        if bytes_eq(w, &[67u8, 65, 78, 80, 76, 65, 89]) {
            return true;
        }
        if bytes_eq(w, &[67u8, 79, 78, 78, 69, 67, 84]) {
            return true;
        }
        if bytes_eq(w, &[68u8, 82, 65, 71, 69, 78, 68]) {
            return true;
        }
        if bytes_eq(w, &[69u8, 77, 80, 84, 73, 69, 68]) {
            return true;
        }
        if bytes_eq(w, &[70u8, 79, 67, 85, 83, 73, 78]) {
            return true;
        }
        if bytes_eq(w, &[73u8, 78, 86, 65, 76, 73, 68]) {
            return true;
        }
        if bytes_eq(w, &[75u8, 69, 89, 68, 79, 87, 78]) {
            return true;
        }
        if bytes_eq(w, &[77u8, 69, 83, 83, 65, 71, 69]) {
            return true;
        }
        if bytes_eq(w, &[77u8, 79, 85, 83, 69, 85, 80]) {
            return true;
        }
        if bytes_eq(w, &[77u8, 79, 86, 69, 69, 78, 68]) {
            return true;
        }
        if bytes_eq(w, &[79u8, 70, 70, 76, 73, 78, 69]) {
            return true;
        }
        if bytes_eq(w, &[80u8, 76, 65, 89, 73, 78, 71]) {
            return true;
        }
        if bytes_eq(w, &[82u8, 79, 87, 69, 88, 73, 84]) {
            return true;
        }
        if bytes_eq(w, &[83u8, 69, 69, 75, 73, 78, 71]) {
            return true;
        }
        if bytes_eq(w, &[83u8, 84, 65, 76, 76, 69, 68]) {
            return true;
        }
        if bytes_eq(w, &[83u8, 84, 79, 82, 65, 71, 69]) {
            return true;
        }
        if bytes_eq(w, &[83u8, 85, 83, 80, 69, 78, 68]) {
            return true;
        }
        if bytes_eq(w, &[84u8, 73, 77, 69, 79, 85, 84]) {
            return true;
        }
        if bytes_eq(w, &[87u8, 65, 73, 84, 73, 78, 71]) {
            return true;
        }
        return false;
    }
    if w.len() == 8 {
        if bytes_eq(w, &[65u8, 67, 84, 73, 86, 65, 84, 69]) {
            return true;
        }
        if bytes_eq(w, &[67u8, 72, 69, 67, 75, 73, 78, 71]) {
            return true;
        }
        if bytes_eq(w, &[67u8, 79, 77, 80, 76, 69, 84, 69]) {
            return true;
        }
        if bytes_eq(w, &[68u8, 66, 76, 67, 76, 73, 67, 75]) {
            return true;
        }
        if bytes_eq(w, &[68u8, 82, 65, 71, 69, 88, 73, 84]) {
            return true;
        }
        if bytes_eq(w, &[68u8, 82, 65, 71, 79, 86, 69, 82]) {
            return true;
        }
        if bytes_eq(w, &[70u8, 79, 67, 85, 83, 79, 85, 84]) {
            return true;
        }
        if bytes_eq(w, &[75u8, 69, 89, 80, 82, 69, 83, 83]) {
            return true;
        }
        if bytes_eq(w, &[77u8, 79, 85, 83, 69, 79, 85, 84]) {
            return true;
        }
        if bytes_eq(w, &[78u8, 79, 85, 80, 68, 65, 84, 69]) {
            return true;
        }
        if bytes_eq(w, &[79u8, 66, 83, 79, 76, 69, 84, 69]) {
            return true;
        }
        if bytes_eq(w, &[80u8, 65, 71, 69, 72, 73, 68, 69]) {
            return true;
        }
        if bytes_eq(w, &[80u8, 65, 71, 69, 83, 72, 79, 87]) {
            return true;
        }
        if bytes_eq(w, &[80u8, 79, 80, 83, 84, 65, 84, 69]) {
            return true;
        }
        if bytes_eq(w, &[80u8, 82, 79, 71, 82, 69, 83, 83]) {
            return true;
        }
        if bytes_eq(w, &[82u8, 79, 87, 69, 78, 84, 69, 82]) {
            return true;
        }
        if bytes_eq(w, &[84u8, 79, 85, 67, 72, 69, 78, 68]) {
            return true;
        }
        return false;
    }
    if w.len() == 9 {
        if bytes_eq(w, &[66u8, 69, 70, 79, 82, 69, 67, 85, 84]) {
            return true;
        }
        if bytes_eq(w, &[67u8, 85, 69, 67, 72, 65, 78, 71, 69]) {
            return true;
        }
        if bytes_eq(w, &[68u8, 82, 65, 71, 69, 78, 84, 69, 82]) {
            return true;
        }
        if bytes_eq(w, &[68u8, 82, 65, 71, 76, 69, 65, 86, 69]) {
            return true;
        }
        if bytes_eq(w, &[68u8, 82, 65, 71, 83, 84, 65, 82, 84]) {
            return true;
        }
        if bytes_eq(w, &[70u8, 79, 82, 77, 73, 78, 80, 85, 84]) {
            return true;
        }
        if bytes_eq(w, &[76u8, 79, 65, 68, 83, 84, 65, 82, 84]) {
            return true;
        }
        if bytes_eq(w, &[77u8, 79, 85, 83, 69, 68, 79, 87, 78]) {
            return true;
        }
        if bytes_eq(w, &[77u8, 79, 85, 83, 69, 77, 79, 86, 69]) {
            return true;
        }
        if bytes_eq(w, &[77u8, 79, 85, 83, 69, 79, 86, 69, 82]) {
            return true;
        }
        if bytes_eq(w, &[77u8, 79, 86, 69, 83, 84, 65, 82, 84]) {
            return true;
        }
        if bytes_eq(w, &[82u8, 69, 83, 73, 90, 69, 69, 78, 68]) {
            return true;
        }
        if bytes_eq(w, &[84u8, 79, 85, 67, 72, 77, 79, 86, 69]) {
            return true;
        }
        return false;
    }
    if w.len() == 10 {
        if bytes_eq(w, &[65u8, 70, 84, 69, 82, 80, 82, 73, 78, 84]) {
            return true;
        }
        if bytes_eq(w, &[66u8, 69, 70, 79, 82, 69, 67, 79, 80, 89]) {
            return true;
        }
        if bytes_eq(w, &[67u8, 69, 76, 76, 67, 72, 65, 78, 71, 69]) {
            return true;
        }
        if bytes_eq(w, &[68u8, 69, 65, 67, 84, 73, 86, 65, 84, 69]) {
            return true;
        }
        if bytes_eq(w, &[70u8, 79, 82, 77, 67, 72, 65, 78, 71, 69]) {
            return true;
        }
        if bytes_eq(w, &[72u8, 65, 83, 72, 67, 72, 65, 78, 71, 69]) {
            return true;
        }
        if bytes_eq(w, &[76u8, 79, 65, 68, 69, 68, 68, 65, 84, 65]) {
            return true;
        }
        if bytes_eq(w, &[77u8, 79, 85, 83, 69, 69, 78, 84, 69, 82]) {
            return true;
        }
        if bytes_eq(w, &[77u8, 79, 85, 83, 69, 76, 69, 65, 86, 69]) {
            return true;
        }
        if bytes_eq(w, &[77u8, 79, 85, 83, 69, 87, 72, 69, 69, 76]) {
            return true;
        }
        if bytes_eq(w, &[82u8, 65, 84, 69, 67, 72, 65, 78, 71, 69]) {
            return true;
        }
        if bytes_eq(w, &[82u8, 79, 87, 83, 68, 69, 76, 69, 84, 69]) {
            return true;
        }
        if bytes_eq(w, &[84u8, 73, 77, 69, 85, 80, 68, 65, 84, 69]) {
            return true;
        }
        if bytes_eq(w, &[84u8, 79, 85, 67, 72, 83, 84, 65, 82, 84]) {
            return true;
        }
        return false;
    }
    if w.len() == 11 {
        if bytes_eq(w, &[65u8, 70, 84, 69, 82, 85, 80, 68, 65, 84, 69]) {
            return true;
        }
        if bytes_eq(w, &[66u8, 69, 70, 79, 82, 69, 80, 65, 83, 84, 69]) {
            return true;
        }
        if bytes_eq(w, &[66u8, 69, 70, 79, 82, 69, 80, 82, 73, 78, 84]) {
            return true;
        }
        if bytes_eq(w, &[67u8, 79, 78, 84, 69, 88, 84, 77, 69, 78, 85]) {
            return true;
        }
        if bytes_eq(w, &[68u8, 79, 87, 78, 76, 79, 65, 68, 73, 78, 71]) {
            return true;
        }
        if bytes_eq(w, &[69u8, 82, 82, 79, 82, 85, 80, 68, 65, 84, 69]) {
            return true;
        }
        if bytes_eq(w, &[76u8, 79, 83, 69, 67, 65, 80, 84, 85, 82, 69]) {
            return true;
        }
        if bytes_eq(w, &[82u8, 69, 83, 73, 90, 69, 83, 84, 65, 82, 84]) {
            return true;
        }
        if bytes_eq(w, &[83u8, 69, 76, 69, 67, 84, 83, 84, 65, 82, 84]) {
            return true;
        }
        if bytes_eq(w, &[84u8, 79, 85, 67, 72, 67, 65, 78, 67, 69, 76]) {
            return true;
        }
        if bytes_eq(w, &[85u8, 80, 68, 65, 84, 69, 82, 69, 65, 68, 89]) {
            return true;
        }
        return false;
    }
    if w.len() == 12 {
        if bytes_eq(w, &[65u8, 78, 73, 77, 65, 84, 73, 79, 78, 69, 78, 68]) {
            return true;
        }
        if bytes_eq(w, &[65u8, 85, 84, 79, 67, 79, 77, 80, 76, 69, 84, 69]) {
            return true;
        }
        if bytes_eq(w, &[66u8, 69, 70, 79, 82, 69, 85, 78, 76, 79, 65, 68]) {
            return true;
        }
        if bytes_eq(w, &[66u8, 69, 70, 79, 82, 69, 85, 80, 68, 65, 84, 69]) {
            return true;
        }
        if bytes_eq(w, &[70u8, 73, 76, 84, 69, 82, 67, 72, 65, 78, 71, 69]) {
            return true;
        }
        if bytes_eq(w, &[82u8, 79, 87, 83, 73, 78, 83, 69, 82, 84, 69, 68]) {
            return true;
        }
        if bytes_eq(w, &[86u8, 79, 76, 85, 77, 69, 67, 72, 65, 78, 71, 69]) {
            return true;
        }
        return false;
    }
    if w.len() == 13 {
        if bytes_eq(w, &[67u8, 79, 78, 84, 82, 79, 76, 83, 69, 76, 69, 67, 84]) {
            return true;
        }
        if bytes_eq(w, &[68u8, 65, 84, 65, 65, 86, 65, 73, 76, 65, 66, 76, 69]) {
            return true;
        }
        if bytes_eq(w, &[84u8, 82, 65, 78, 83, 73, 84, 73, 79, 78, 69, 78, 68]) {
            return true;
        }
        if bytes_eq(w, &[85u8, 80, 71, 82, 65, 68, 69, 78, 69, 69, 68, 69, 68]) {
            return true;
        }
        return false;
    }
    if w.len() == 14 {
        if bytes_eq(w, &[65u8, 78, 73, 77, 65, 84, 73, 79, 78, 83, 84, 65, 82, 84]) {
            return true;
        }
        if bytes_eq(w, &[66u8, 69, 70, 79, 82, 69, 65, 67, 84, 73, 86, 65, 84, 69]) {
            return true;
        }
        if bytes_eq(w, &[67u8, 65, 78, 80, 76, 65, 89, 84, 72, 82, 79, 85, 71, 72]) {
            return true;
        }
        if bytes_eq(w, &[68u8, 65, 84, 65, 83, 69, 84, 67, 72, 65, 78, 71, 69, 68]) {
            return true;
        }
        if bytes_eq(w, &[68u8, 85, 82, 65, 84, 73, 79, 78, 67, 72, 65, 78, 71, 69]) {
            return true;
        }
        if bytes_eq(w, &[76u8, 65, 78, 71, 85, 65, 71, 69, 67, 72, 65, 78, 71, 69]) {
            return true;
        }
        if bytes_eq(w, &[76u8, 65, 89, 79, 85, 84, 67, 79, 77, 80, 76, 69, 84, 69]) {
            return true;
        }
        if bytes_eq(w, &[76u8, 79, 65, 68, 69, 68, 77, 69, 84, 65, 68, 65, 84, 65]) {
            return true;
        }
        if bytes_eq(w, &[80u8, 82, 79, 80, 69, 82, 84, 89, 67, 72, 65, 78, 71, 69]) {
            return true;
        }
        return false;
    }
    if w.len() == 15 {
        if bytes_eq(w, &[66u8, 69, 70, 79, 82, 69, 69, 68, 73, 84, 70, 79, 67, 85, 83]) {
            return true;
        }
        if bytes_eq(w, &[68u8, 65, 84, 65, 83, 69, 84, 67, 79, 77, 80, 76, 69, 84, 69]) {
            return true;
        }
        if bytes_eq(w, &[79u8, 86, 69, 82, 70, 76, 79, 87, 67, 72, 65, 78, 71, 69, 68]) {
            return true;
        }
        if bytes_eq(w, &[83u8, 69, 76, 69, 67, 84, 73, 79, 78, 67, 72, 65, 78, 71, 69]) {
            return true;
        }
        return false;
    }
    if w.len() == 16 {
        if bytes_eq(w, &[66u8, 69, 70, 79, 82, 69, 68, 69, 65, 67, 84, 73, 86, 65, 84, 69]) {
            return true;
        }
        if bytes_eq(w, &[82u8, 69, 65, 68, 89, 83, 84, 65, 84, 69, 67, 72, 65, 78, 71, 69]) {
            return true;
        }
        return false;
    }
    if w.len() == 17 {
        if bytes_eq(w, &[65u8, 85, 84, 79, 67, 79, 77, 80, 76, 69, 84, 69, 69, 82, 82, 79, 82]) {
            return true;
        }
        return false;
    }
    if w.len() == 18 {
        if bytes_eq(w, &[65u8, 78, 73, 77, 65, 84, 73, 79, 78, 73, 84, 69, 82, 65, 84, 73, 79, 78]) {
            return true;
        }
        if bytes_eq(w, &[87u8, 69, 66, 75, 73, 84, 65, 78, 73, 77, 65, 84, 73, 79, 78, 69, 78, 68]) {
            return true;
        }
        return false;
    }
    if w.len() == 19 {
        if bytes_eq(w, &[87u8, 69, 66, 75, 73, 84, 84, 82, 65, 78, 83, 73, 84, 73, 79, 78, 69, 78, 68]) {
            return true;
        }
        return false;
    }
    if w.len() == 20 {
        if bytes_eq(w, &[87u8, 69, 66, 75, 73, 84, 65, 78, 73, 77, 65, 84, 73, 79, 78, 83, 84, 65, 82, 84]) {
            return true;
        }
        return false;
    }
    if w.len() == 24 {
        if bytes_eq(w, &[87u8, 69, 66, 75, 73, 84, 65, 78, 73, 77, 65, 84, 73, 79, 78, 73, 84, 69, 82, 65, 84, 73, 79, 78]) {
            return true;
        }
        return false;
    }
    false
}

/// The treatment of a listed attribute name (upper case); `NotListed` otherwise.
pub open spec fn deny_attr_word(w: Seq<u8>) -> DenyAttrKind {
    if w == seq![65u8, 67, 84, 73, 79, 78] {
        DenyAttrKind::Url
    } else if w == seq![65u8, 84, 84, 82, 73, 66, 85, 84, 69, 78, 65, 77, 69] {
        DenyAttrKind::Indirect
    } else if w == seq![66u8, 65, 67, 75, 71, 82, 79, 85, 78, 68] {
        DenyAttrKind::Url
    } else if w == seq![66u8, 89] {
        DenyAttrKind::Url
    } else if w == seq![68u8, 65, 84, 65, 70, 79, 82, 77, 65, 84, 65, 83] {
        DenyAttrKind::Deny
    } else if w == seq![68u8, 65, 84, 65, 83, 82, 67] {
        DenyAttrKind::Deny
    } else if w == seq![68u8, 89, 78, 83, 82, 67] {
        DenyAttrKind::Url
    } else if w == seq![70u8, 73, 76, 84, 69, 82] {
        DenyAttrKind::Style
    } else if w == seq![70u8, 79, 76, 68, 69, 82] {
        DenyAttrKind::Url
    } else if w == seq![70u8, 79, 82, 77, 65, 67, 84, 73, 79, 78] {
        DenyAttrKind::Url
    } else if w == seq![70u8, 82, 79, 77] {
        DenyAttrKind::Url
    } else if w == seq![72u8, 65, 78, 68, 76, 69, 82] {
        DenyAttrKind::Url
    } else if w == seq![72u8, 82, 69, 70] {
        DenyAttrKind::Url
    } else if w == seq![76u8, 79, 87, 83, 82, 67] {
        DenyAttrKind::Url
    } else if w == seq![80u8, 79, 83, 84, 69, 82] {
        DenyAttrKind::Url
    } else if w == seq![83u8, 82, 67] {
        DenyAttrKind::Url
    } else if w == seq![83u8, 84, 89, 76, 69] {
        DenyAttrKind::Style
    } else if w == seq![84u8, 79] {
        DenyAttrKind::Url
    } else if w == seq![86u8, 65, 76, 85, 69, 83] {
        DenyAttrKind::Url
    } else if w == seq![88u8, 76, 73, 78, 75, 58, 72, 82, 69, 70] {
        DenyAttrKind::Url
    } else {
        DenyAttrKind::NotListed
    }
}

/// The treatment of an attribute name from the attribute list.
pub fn attr_word_kind(w: &[u8]) -> (r: DenyAttrKind)
    ensures
        r == deny_attr_word(w@),
{
    if bytes_eq(w, &[65u8, 67, 84, 73, 79, 78]) {
        return DenyAttrKind::Url;
    }
    if bytes_eq(w, &[65u8, 84, 84, 82, 73, 66, 85, 84, 69, 78, 65, 77, 69]) {
        return DenyAttrKind::Indirect;
    }
    if bytes_eq(w, &[66u8, 65, 67, 75, 71, 82, 79, 85, 78, 68]) {
        return DenyAttrKind::Url;
    }
    if bytes_eq(w, &[66u8, 89]) {
        return DenyAttrKind::Url;
    }
    if bytes_eq(w, &[68u8, 65, 84, 65, 70, 79, 82, 77, 65, 84, 65, 83]) {
        return DenyAttrKind::Deny;
    }
    if bytes_eq(w, &[68u8, 65, 84, 65, 83, 82, 67]) {
        return DenyAttrKind::Deny;
    }
    if bytes_eq(w, &[68u8, 89, 78, 83, 82, 67]) {
        return DenyAttrKind::Url;
    }
    if bytes_eq(w, &[70u8, 73, 76, 84, 69, 82]) {
        return DenyAttrKind::Style;
    }
    if bytes_eq(w, &[70u8, 79, 76, 68, 69, 82]) {
        return DenyAttrKind::Url;
    }
    if bytes_eq(w, &[70u8, 79, 82, 77, 65, 67, 84, 73, 79, 78]) {
        return DenyAttrKind::Url;
    }
    if bytes_eq(w, &[70u8, 82, 79, 77]) {
        return DenyAttrKind::Url;
    }
    if bytes_eq(w, &[72u8, 65, 78, 68, 76, 69, 82]) {
        return DenyAttrKind::Url;
    }
    if bytes_eq(w, &[72u8, 82, 69, 70]) {
        return DenyAttrKind::Url;
    }
    if bytes_eq(w, &[76u8, 79, 87, 83, 82, 67]) {
        return DenyAttrKind::Url;
    }
    if bytes_eq(w, &[80u8, 79, 83, 84, 69, 82]) {
        return DenyAttrKind::Url;
    }
    if bytes_eq(w, &[83u8, 82, 67]) {
        return DenyAttrKind::Url;
    }
    if bytes_eq(w, &[83u8, 84, 89, 76, 69]) {
        return DenyAttrKind::Style;
    }
    if bytes_eq(w, &[84u8, 79]) {
        return DenyAttrKind::Url;
    }
    if bytes_eq(w, &[86u8, 65, 76, 85, 69, 83]) {
        return DenyAttrKind::Url;
    }
    if bytes_eq(w, &[88u8, 76, 73, 78, 75, 58, 72, 82, 69, 70]) {
        return DenyAttrKind::Url;
    }
    DenyAttrKind::NotListed
}

} // verus!
