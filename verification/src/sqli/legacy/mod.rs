//! Legacy `SQLi` path: tokenize, fold, fingerprint, blacklist, whitelist.
pub mod consts;
pub mod data;
pub mod helpers;
pub mod lex;
pub mod token;
pub mod state;
pub mod parse;
pub mod access;
pub mod fold;
pub mod detect;
pub mod passes;

use vstd::prelude::*;
use crate::sqli::legacy::detect::{is_blacklisted, is_sqli};
use crate::sqli::legacy::passes::{detecting_pass, legacy_fingerprint_of, pass_of};

verus! {

/// Legacy `SQLi` detection: `(detected, fingerprint bytes, fingerprint length)`;
/// the fingerprint is reported only when an injection is detected, and the
/// bytes after it are those its pass left (see `Pass::slots`).
pub fn detect_with_fingerprint(input: &[u8]) -> (r: (bool, [u8; 5], u8))
    requires
        input@.len() <= isize::MAX,
    ensures
        input@.len() == 0 ==> !r.0,
        r.0 ==> 1 <= r.2 <= 5 && is_blacklisted(r.1@.subrange(0, r.2 as int)),
        !r.0 ==> r.2 == 0 && r.1@ == seq![0u8, 0, 0, 0, 0],
        r.0 == legacy_fingerprint_of(input@) is Some,
        r.0 ==> legacy_fingerprint_of(input@) == Some(r.1@.subrange(0, r.2 as int)),
        r.0 ==> r.1@ == pass_of(input@, detecting_pass(input@)->0).slots,
{
    is_sqli(input)
}

} // verus!
