//! Fast prefilter: skip obviously benign inputs before normalization.
use vstd::prelude::*;
use crate::engine::ascii::{contains_ic, contains_ignore_ascii_case};
use crate::engine::bytes::{memchr, memchr2, memchr3};

verus! {

/// The input may contain SQLi-relevant bytes: a quote, `;`, a comment or
/// operator byte, or one of a few SQL keywords (ASCII case-insensitive).
pub open spec fn spec_sqli_may_be_interesting(input: Seq<u8>) -> bool {
    input.len() > 0 && (input.contains(39u8) || input.contains(34u8) || input.contains(59u8)
        || input.contains(45u8) || input.contains(35u8) || input.contains(47u8)
        || input.contains(92u8) || input.contains(40u8) || input.contains(41u8)
        || input.contains(61u8) || input.contains(91u8)
            || contains_ic(input, seq![117u8, 110, 105, 111, 110])
            || contains_ic(input, seq![115u8, 101, 108, 101, 99, 116])
            || contains_ic(input, seq![32u8, 111, 114, 32])
            || contains_ic(input, seq![32u8, 97, 110, 100, 32])
            || contains_ic(input, seq![101u8, 120, 101, 99])
            || contains_ic(input, seq![120u8, 112, 95, 99, 109, 100, 115, 104, 101, 108, 108])
            || contains_ic(input, seq![119u8, 97, 105, 116, 102, 111, 114, 32, 100, 101, 108, 97, 121])
            || contains_ic(input, seq![100u8, 117, 97, 108])
            || contains_ic(input, seq![113u8, 39]))
}

/// The input may contain XSS-relevant bytes: markup or quote bytes, `=`, `(`,
/// or one of a few scheme / tag / handler words (ASCII case-insensitive).
pub open spec fn spec_xss_may_be_interesting(input: Seq<u8>) -> bool {
    input.len() > 0 && (input.contains(60u8) || input.contains(62u8) || input.contains(38u8)
        || input.contains(39u8) || input.contains(34u8) || input.contains(96u8)
            || contains_ic(input, seq![106u8, 97, 118, 97, 115, 99, 114, 105, 112, 116, 58])
            || contains_ic(input, seq![100u8, 97, 116, 97, 58])
            || contains_ic(input, seq![118u8, 98, 115, 99, 114, 105, 112, 116, 58])
            || contains_ic(input, seq![118u8, 105, 101, 119, 45, 115, 111, 117, 114, 99, 101, 58])
            || contains_ic(input, seq![106u8, 97, 118, 97, 58])
            || contains_ic(input, seq![37u8, 51, 99])
            || contains_ic(input, seq![60u8, 115, 99, 114, 105, 112, 116])
            || contains_ic(input, seq![111u8, 110, 101, 114, 114, 111, 114])
            || input.contains(61u8) || input.contains(40u8))
}

/// True if the input may contain SQLi-relevant bytes.
pub fn sqli_may_be_interesting(input: &[u8]) -> (r: bool)
    ensures
        r == spec_sqli_may_be_interesting(input@),
{
    if input.len() == 0 {
        return false;
    }
    if memchr3(39, 34, 59, input).is_some() {
        return true;
    }
    memchr2(45, 35, input).is_some()
        || memchr(47, input).is_some()
        || memchr(92, input).is_some()
        || memchr(40, input).is_some()
        || memchr(41, input).is_some()
        || memchr(61, input).is_some()
        || memchr(91, input).is_some()
        || contains_ignore_ascii_case(input, &[117u8, 110, 105, 111, 110])
        || contains_ignore_ascii_case(input, &[115u8, 101, 108, 101, 99, 116])
        || contains_ignore_ascii_case(input, &[32u8, 111, 114, 32])
        || contains_ignore_ascii_case(input, &[32u8, 97, 110, 100, 32])
        || contains_ignore_ascii_case(input, &[101u8, 120, 101, 99])
        || contains_ignore_ascii_case(input, &[120u8, 112, 95, 99, 109, 100, 115, 104, 101, 108, 108])
        || contains_ignore_ascii_case(input, &[119u8, 97, 105, 116, 102, 111, 114, 32, 100, 101, 108, 97, 121])
        || contains_ignore_ascii_case(input, &[100u8, 117, 97, 108])
        || contains_ignore_ascii_case(input, &[113u8, 39])
}

/// True if the input may contain XSS-relevant bytes.
pub fn xss_may_be_interesting(input: &[u8]) -> (r: bool)
    ensures
        r == spec_xss_may_be_interesting(input@),
{
    if input.len() == 0 {
        return false;
    }
    memchr(60, input).is_some()
        || memchr(62, input).is_some()
        || memchr(38, input).is_some()
        || memchr(39, input).is_some()
        || memchr(34, input).is_some()
        || memchr(96, input).is_some()
        || contains_ignore_ascii_case(input, &[106u8, 97, 118, 97, 115, 99, 114, 105, 112, 116, 58])
        || contains_ignore_ascii_case(input, &[100u8, 97, 116, 97, 58])
        || contains_ignore_ascii_case(input, &[118u8, 98, 115, 99, 114, 105, 112, 116, 58])
        || contains_ignore_ascii_case(input, &[118u8, 105, 101, 119, 45, 115, 111, 117, 114, 99, 101, 58])
        || contains_ignore_ascii_case(input, &[106u8, 97, 118, 97, 58])
        || contains_ignore_ascii_case(input, &[37u8, 51, 99])
        || contains_ignore_ascii_case(input, &[60u8, 115, 99, 114, 105, 112, 116])
        || contains_ignore_ascii_case(input, &[111u8, 110, 101, 114, 114, 111, 114])
        || memchr2(61, 40, input).is_some()
}

} // verus!
