//! Keyword / operator / phrase / fingerprint table of the legacy engine.
use vstd::prelude::*;
use crate::engine::ascii::{to_upper, upper};
use crate::sqli::legacy::consts::{BYTE_NULL, LOOKUP_FINGERPRINT};

verus! {

/// Table entries whose key has 2 byte(s).
pub open spec fn spec_lookup_len2(key: Seq<u8>) -> Option<u8> {
    if key == seq![33u8, 33] {
        Some(111u8)
    } else if key == seq![33u8, 60] {
        Some(111u8)
    } else if key == seq![33u8, 61] {
        Some(111u8)
    } else if key == seq![33u8, 62] {
        Some(111u8)
    } else if key == seq![33u8, 126] {
        Some(111u8)
    } else if key == seq![37u8, 61] {
        Some(111u8)
    } else if key == seq![38u8, 38] {
        Some(38u8)
    } else if key == seq![38u8, 61] {
        Some(111u8)
    } else if key == seq![42u8, 61] {
        Some(111u8)
    } else if key == seq![43u8, 61] {
        Some(111u8)
    } else if key == seq![45u8, 61] {
        Some(111u8)
    } else if key == seq![47u8, 61] {
        Some(111u8)
    } else if key == seq![48u8, 88] {
        Some(70u8)
    } else if key == seq![58u8, 58] {
        Some(111u8)
    } else if key == seq![58u8, 61] {
        Some(111u8)
    } else if key == seq![60u8, 60] {
        Some(111u8)
    } else if key == seq![60u8, 61] {
        Some(111u8)
    } else if key == seq![60u8, 62] {
        Some(111u8)
    } else if key == seq![60u8, 64] {
        Some(111u8)
    } else if key == seq![62u8, 61] {
        Some(111u8)
    } else if key == seq![62u8, 62] {
        Some(111u8)
    } else if key == seq![64u8, 62] {
        Some(111u8)
    } else if key == seq![65u8, 83] {
        Some(107u8)
    } else if key == seq![73u8, 70] {
        Some(102u8)
    } else if key == seq![73u8, 78] {
        Some(107u8)
    } else if key == seq![73u8, 83] {
        Some(111u8)
    } else if key == seq![79u8, 78] {
        Some(107u8)
    } else if key == seq![79u8, 82] {
        Some(38u8)
    } else if key == seq![94u8, 61] {
        Some(111u8)
    } else if key == seq![124u8, 47] {
        Some(111u8)
    } else if key == seq![124u8, 61] {
        Some(111u8)
    } else if key == seq![124u8, 124] {
        Some(38u8)
    } else if key == seq![126u8, 42] {
        Some(111u8)
    } else {
        None
    }
}

/// Table entries whose key has 3 byte(s).
pub open spec fn spec_lookup_len3(key: Seq<u8>) -> Option<u8> {
    if key == seq![48u8, 49, 85] {
        Some(70u8)
    } else if key == seq![48u8, 78, 67] {
        Some(70u8)
    } else if key == seq![65u8, 76, 76] {
        Some(107u8)
    } else if key == seq![65u8, 78, 68] {
        Some(38u8)
    } else if key == seq![67u8, 72, 82] {
        Some(102u8)
    } else if key == seq![68u8, 73, 86] {
        Some(111u8)
    } else if key == seq![69u8, 78, 68] {
        Some(107u8)
    } else if key == seq![72u8, 69, 88] {
        Some(102u8)
    } else if key == seq![73u8, 78, 84] {
        Some(116u8)
    } else if key == seq![77u8, 68, 53] {
        Some(102u8)
    } else if key == seq![77u8, 73, 68] {
        Some(102u8)
    } else if key == seq![77u8, 79, 68] {
        Some(111u8)
    } else if key == seq![78u8, 79, 84] {
        Some(111u8)
    } else if key == seq![83u8, 69, 84] {
        Some(107u8)
    } else if key == seq![88u8, 79, 82] {
        Some(38u8)
    } else {
        None
    }
}

/// Table entries whose key has 4 byte(s).
pub open spec fn spec_lookup_len4(key: Seq<u8>) -> Option<u8> {
    if key == seq![48u8, 49, 38, 49] {
        Some(70u8)
    } else if key == seq![48u8, 49, 85, 69] {
        Some(70u8)
    } else if key == seq![48u8, 83, 38, 49] {
        Some(70u8)
    } else if key == seq![67u8, 65, 83, 69] {
        Some(69u8)
    } else if key == seq![67u8, 65, 83, 84] {
        Some(116u8)
    } else if key == seq![67u8, 72, 65, 82] {
        Some(116u8)
    } else if key == seq![68u8, 82, 79, 80] {
        Some(107u8)
    } else if key == seq![69u8, 76, 83, 69] {
        Some(107u8)
    } else if key == seq![69u8, 88, 69, 67] {
        Some(107u8)
    } else if key == seq![70u8, 82, 79, 77] {
        Some(107u8)
    } else if key == seq![73u8, 78, 84, 79] {
        Some(107u8)
    } else if key == seq![74u8, 79, 73, 78] {
        Some(107u8)
    } else if key == seq![76u8, 73, 75, 69] {
        Some(111u8)
    } else if key == seq![83u8, 72, 65, 49] {
        Some(102u8)
    } else if key == seq![84u8, 72, 69, 78] {
        Some(107u8)
    } else {
        None
    }
}

/// Table entries whose key has 5 byte(s).
pub open spec fn spec_lookup_len5(key: Seq<u8>) -> Option<u8> {
    if key == seq![48u8, 49, 85, 69, 49] {
        Some(70u8)
    } else if key == seq![48u8, 49, 85, 69, 75] {
        Some(70u8)
    } else if key == seq![65u8, 76, 84, 69, 82] {
        Some(107u8)
    } else if key == seq![65u8, 83, 67, 73, 73] {
        Some(102u8)
    } else if key == seq![67u8, 79, 85, 78, 84] {
        Some(102u8)
    } else if key == seq![68u8, 69, 76, 65, 89] {
        Some(107u8)
    } else if key == seq![76u8, 73, 77, 73, 84] {
        Some(66u8)
    } else if key == seq![78u8, 67, 72, 65, 82] {
        Some(116u8)
    } else if key == seq![82u8, 76, 73, 75, 69] {
        Some(111u8)
    } else if key == seq![83u8, 76, 69, 69, 80] {
        Some(102u8)
    } else if key == seq![84u8, 65, 66, 76, 69] {
        Some(107u8)
    } else if key == seq![85u8, 78, 72, 69, 88] {
        Some(102u8)
    } else if key == seq![85u8, 78, 73, 79, 78] {
        Some(85u8)
    } else if key == seq![87u8, 72, 69, 82, 69] {
        Some(107u8)
    } else {
        None
    }
}

/// Table entries whose key has 6 byte(s).
pub open spec fn spec_lookup_len6(key: Seq<u8>) -> Option<u8> {
    if key == seq![48u8, 83, 38, 40, 49, 41] {
        Some(70u8)
    } else if key == seq![48u8, 83, 38, 83, 79, 83] {
        Some(70u8)
    } else if key == seq![48u8, 83, 85, 69, 79, 75] {
        Some(70u8)
    } else if key == seq![66u8, 73, 71, 73, 78, 84] {
        Some(116u8)
    } else if key == seq![66u8, 73, 78, 65, 82, 89] {
        Some(116u8)
    } else if key == seq![67u8, 79, 78, 67, 65, 84] {
        Some(102u8)
    } else if key == seq![67u8, 82, 69, 65, 84, 69] {
        Some(107u8)
    } else if key == seq![68u8, 69, 76, 69, 84, 69] {
        Some(69u8)
    } else if key == seq![72u8, 65, 86, 73, 78, 71] {
        Some(66u8)
    } else if key == seq![73u8, 70, 78, 85, 76, 76] {
        Some(102u8)
    } else if key == seq![73u8, 78, 83, 69, 82, 84] {
        Some(69u8)
    } else if key == seq![73u8, 83, 32, 78, 79, 84] {
        Some(111u8)
    } else if key == seq![76u8, 69, 78, 71, 84, 72] {
        Some(102u8)
    } else if key == seq![78u8, 79, 84, 32, 73, 78] {
        Some(107u8)
    } else if key == seq![82u8, 69, 71, 69, 88, 80] {
        Some(111u8)
    } else if key == seq![83u8, 67, 72, 69, 77, 65] {
        Some(102u8)
    } else if key == seq![83u8, 69, 76, 69, 67, 84] {
        Some(69u8)
    } else if key == seq![83u8, 73, 71, 78, 69, 68] {
        Some(116u8)
    } else if key == seq![83u8, 85, 66, 83, 84, 82] {
        Some(102u8)
    } else if key == seq![85u8, 80, 68, 65, 84, 69] {
        Some(69u8)
    } else if key == seq![86u8, 65, 76, 85, 69, 83] {
        Some(107u8)
    } else {
        None
    }
}

/// Table entries whose key has 7 byte(s).
pub open spec fn spec_lookup_len7(key: Seq<u8>) -> Option<u8> {
    if key == seq![66u8, 69, 84, 87, 69, 69, 78] {
        Some(111u8)
    } else if key == seq![67u8, 79, 76, 76, 65, 84, 69] {
        Some(65u8)
    } else if key == seq![68u8, 69, 67, 73, 77, 65, 76] {
        Some(116u8)
    } else if key == seq![68u8, 69, 67, 76, 65, 82, 69] {
        Some(107u8)
    } else if key == seq![69u8, 88, 69, 67, 85, 84, 69] {
        Some(107u8)
    } else if key == seq![73u8, 78, 84, 69, 71, 69, 82] {
        Some(116u8)
    } else if key == seq![86u8, 65, 82, 67, 72, 65, 82] {
        Some(116u8)
    } else if key == seq![86u8, 69, 82, 83, 73, 79, 78] {
        Some(102u8)
    } else if key == seq![87u8, 65, 73, 84, 70, 79, 82] {
        Some(107u8)
    } else {
        None
    }
}

/// Table entries whose key has 8 byte(s).
pub open spec fn spec_lookup_len8(key: Seq<u8>) -> Option<u8> {
    if key == seq![67u8, 79, 65, 76, 69, 83, 67, 69] {
        Some(102u8)
    } else if key == seq![68u8, 73, 83, 84, 73, 78, 67, 84] {
        Some(107u8)
    } else if key == seq![71u8, 82, 79, 85, 80, 32, 66, 89] {
        Some(66u8)
    } else if key == seq![78u8, 79, 84, 32, 76, 73, 75, 69] {
        Some(111u8)
    } else if key == seq![78u8, 86, 65, 82, 67, 72, 65, 82] {
        Some(116u8)
    } else if key == seq![79u8, 82, 68, 69, 82, 32, 66, 89] {
        Some(66u8)
    } else if key == seq![80u8, 71, 95, 83, 76, 69, 69, 80] {
        Some(102u8)
    } else if key == seq![83u8, 72, 85, 84, 68, 79, 87, 78] {
        Some(107u8)
    } else if key == seq![83u8, 77, 65, 76, 76, 73, 78, 84] {
        Some(116u8)
    } else if key == seq![84u8, 82, 85, 78, 67, 65, 84, 69] {
        Some(107u8)
    } else if key == seq![85u8, 78, 83, 73, 71, 78, 69, 68] {
        Some(116u8)
    } else {
        None
    }
}

/// Table entries whose key has 9 byte(s).
pub open spec fn spec_lookup_len9(key: Seq<u8>) -> Option<u8> {
    if key == seq![66u8, 69, 78, 67, 72, 77, 65, 82, 75] {
        Some(102u8)
    } else if key == seq![67u8, 79, 78, 67, 65, 84, 95, 87, 83] {
        Some(102u8)
    } else if key == seq![76u8, 79, 65, 68, 95, 70, 73, 76, 69] {
        Some(102u8)
    } else if key == seq![80u8, 82, 79, 67, 69, 68, 85, 82, 69] {
        Some(107u8)
    } else if key == seq![83u8, 85, 66, 83, 84, 82, 73, 78, 71] {
        Some(102u8)
    } else if key == seq![85u8, 78, 73, 79, 78, 32, 65, 76, 76] {
        Some(85u8)
    } else if key == seq![85u8, 80, 68, 65, 84, 69, 88, 77, 76] {
        Some(102u8)
    } else {
        None
    }
}

/// Table entries whose key has 11 byte(s).
pub open spec fn spec_lookup_len11(key: Seq<u8>) -> Option<u8> {
    if key == seq![78u8, 79, 84, 32, 66, 69, 84, 87, 69, 69, 78] {
        Some(111u8)
    } else if key == seq![83u8, 79, 85, 78, 68, 83, 32, 76, 73, 75, 69] {
        Some(111u8)
    } else if key == seq![83u8, 89, 83, 84, 69, 77, 95, 85, 83, 69, 82] {
        Some(102u8)
    } else if key == seq![88u8, 80, 95, 67, 77, 68, 83, 72, 69, 76, 76] {
        Some(102u8)
    } else {
        None
    }
}

/// Table entries whose key has 12 byte(s).
pub open spec fn spec_lookup_len12(key: Seq<u8>) -> Option<u8> {
    if key == seq![69u8, 88, 84, 82, 65, 67, 84, 86, 65, 76, 85, 69] {
        Some(102u8)
    } else if key == seq![73u8, 78, 84, 79, 32, 79, 85, 84, 70, 73, 76, 69] {
        Some(107u8)
    } else if key == seq![83u8, 69, 83, 83, 73, 79, 78, 95, 85, 83, 69, 82] {
        Some(102u8)
    } else {
        None
    }
}

/// Table entries whose key has 13 byte(s).
pub open spec fn spec_lookup_len13(key: Seq<u8>) -> Option<u8> {
    if key == seq![73u8, 78, 84, 79, 32, 68, 85, 77, 80, 70, 73, 76, 69] {
        Some(107u8)
    } else {
        None
    }
}

/// Table entries whose key has 14 byte(s).
pub open spec fn spec_lookup_len14(key: Seq<u8>) -> Option<u8> {
    if key == seq![85u8, 78, 73, 79, 78, 32, 68, 73, 83, 84, 73, 78, 67, 84] {
        Some(85u8)
    } else {
        None
    }
}

/// The table entry for an (already uppercase) key, if any.
pub open spec fn spec_lookup_keyword(key: Seq<u8>) -> Option<u8> {
    if key.len() == 2 {
        spec_lookup_len2(key)
    } else if key.len() == 3 {
        spec_lookup_len3(key)
    } else if key.len() == 4 {
        spec_lookup_len4(key)
    } else if key.len() == 5 {
        spec_lookup_len5(key)
    } else if key.len() == 6 {
        spec_lookup_len6(key)
    } else if key.len() == 7 {
        spec_lookup_len7(key)
    } else if key.len() == 8 {
        spec_lookup_len8(key)
    } else if key.len() == 9 {
        spec_lookup_len9(key)
    } else if key.len() == 11 {
        spec_lookup_len11(key)
    } else if key.len() == 12 {
        spec_lookup_len12(key)
    } else if key.len() == 13 {
        spec_lookup_len13(key)
    } else if key.len() == 14 {
        spec_lookup_len14(key)
    } else {
        None
    }
}

fn lookup_len2(key: &[u8]) -> (r: Option<u8>)
    requires
        key@.len() == 2,
    ensures
        r == spec_lookup_len2(key@),
{
    if bytes_eq(key, &[33u8, 33]) {
        return Some(111);
    }
    if bytes_eq(key, &[33u8, 60]) {
        return Some(111);
    }
    if bytes_eq(key, &[33u8, 61]) {
        return Some(111);
    }
    if bytes_eq(key, &[33u8, 62]) {
        return Some(111);
    }
    if bytes_eq(key, &[33u8, 126]) {
        return Some(111);
    }
    if bytes_eq(key, &[37u8, 61]) {
        return Some(111);
    }
    if bytes_eq(key, &[38u8, 38]) {
        return Some(38);
    }
    if bytes_eq(key, &[38u8, 61]) {
        return Some(111);
    }
    if bytes_eq(key, &[42u8, 61]) {
        return Some(111);
    }
    if bytes_eq(key, &[43u8, 61]) {
        return Some(111);
    }
    if bytes_eq(key, &[45u8, 61]) {
        return Some(111);
    }
    if bytes_eq(key, &[47u8, 61]) {
        return Some(111);
    }
    if bytes_eq(key, &[48u8, 88]) {
        return Some(70);
    }
    if bytes_eq(key, &[58u8, 58]) {
        return Some(111);
    }
    if bytes_eq(key, &[58u8, 61]) {
        return Some(111);
    }
    if bytes_eq(key, &[60u8, 60]) {
        return Some(111);
    }
    if bytes_eq(key, &[60u8, 61]) {
        return Some(111);
    }
    if bytes_eq(key, &[60u8, 62]) {
        return Some(111);
    }
    if bytes_eq(key, &[60u8, 64]) {
        return Some(111);
    }
    if bytes_eq(key, &[62u8, 61]) {
        return Some(111);
    }
    if bytes_eq(key, &[62u8, 62]) {
        return Some(111);
    }
    if bytes_eq(key, &[64u8, 62]) {
        return Some(111);
    }
    if bytes_eq(key, &[65u8, 83]) {
        return Some(107);
    }
    if bytes_eq(key, &[73u8, 70]) {
        return Some(102);
    }
    if bytes_eq(key, &[73u8, 78]) {
        return Some(107);
    }
    if bytes_eq(key, &[73u8, 83]) {
        return Some(111);
    }
    if bytes_eq(key, &[79u8, 78]) {
        return Some(107);
    }
    if bytes_eq(key, &[79u8, 82]) {
        return Some(38);
    }
    if bytes_eq(key, &[94u8, 61]) {
        return Some(111);
    }
    if bytes_eq(key, &[124u8, 47]) {
        return Some(111);
    }
    if bytes_eq(key, &[124u8, 61]) {
        return Some(111);
    }
    if bytes_eq(key, &[124u8, 124]) {
        return Some(38);
    }
    if bytes_eq(key, &[126u8, 42]) {
        return Some(111);
    }
    None
}

fn lookup_len3(key: &[u8]) -> (r: Option<u8>)
    requires
        key@.len() == 3,
    ensures
        r == spec_lookup_len3(key@),
{
    if bytes_eq(key, &[48u8, 49, 85]) {
        return Some(70);
    }
    if bytes_eq(key, &[48u8, 78, 67]) {
        return Some(70);
    }
    if bytes_eq(key, &[65u8, 76, 76]) {
        return Some(107);
    }
    if bytes_eq(key, &[65u8, 78, 68]) {
        return Some(38);
    }
    if bytes_eq(key, &[67u8, 72, 82]) {
        return Some(102);
    }
    if bytes_eq(key, &[68u8, 73, 86]) {
        return Some(111);
    }
    if bytes_eq(key, &[69u8, 78, 68]) {
        return Some(107);
    }
    if bytes_eq(key, &[72u8, 69, 88]) {
        return Some(102);
    }
    if bytes_eq(key, &[73u8, 78, 84]) {
        return Some(116);
    }
    if bytes_eq(key, &[77u8, 68, 53]) {
        return Some(102);
    }
    if bytes_eq(key, &[77u8, 73, 68]) {
        return Some(102);
    }
    if bytes_eq(key, &[77u8, 79, 68]) {
        return Some(111);
    }
    if bytes_eq(key, &[78u8, 79, 84]) {
        return Some(111);
    }
    if bytes_eq(key, &[83u8, 69, 84]) {
        return Some(107);
    }
    if bytes_eq(key, &[88u8, 79, 82]) {
        return Some(38);
    }
    None
}

fn lookup_len4(key: &[u8]) -> (r: Option<u8>)
    requires
        key@.len() == 4,
    ensures
        r == spec_lookup_len4(key@),
{
    if bytes_eq(key, &[48u8, 49, 38, 49]) {
        return Some(70);
    }
    if bytes_eq(key, &[48u8, 49, 85, 69]) {
        return Some(70);
    }
    if bytes_eq(key, &[48u8, 83, 38, 49]) {
        return Some(70);
    }
    if bytes_eq(key, &[67u8, 65, 83, 69]) {
        return Some(69);
    }
    if bytes_eq(key, &[67u8, 65, 83, 84]) {
        return Some(116);
    }
    if bytes_eq(key, &[67u8, 72, 65, 82]) {
        return Some(116);
    }
    if bytes_eq(key, &[68u8, 82, 79, 80]) {
        return Some(107);
    }
    if bytes_eq(key, &[69u8, 76, 83, 69]) {
        return Some(107);
    }
    if bytes_eq(key, &[69u8, 88, 69, 67]) {
        return Some(107);
    }
    if bytes_eq(key, &[70u8, 82, 79, 77]) {
        return Some(107);
    }
    if bytes_eq(key, &[73u8, 78, 84, 79]) {
        return Some(107);
    }
    if bytes_eq(key, &[74u8, 79, 73, 78]) {
        return Some(107);
    }
    if bytes_eq(key, &[76u8, 73, 75, 69]) {
        return Some(111);
    }
    if bytes_eq(key, &[83u8, 72, 65, 49]) {
        return Some(102);
    }
    if bytes_eq(key, &[84u8, 72, 69, 78]) {
        return Some(107);
    }
    None
}

fn lookup_len5(key: &[u8]) -> (r: Option<u8>)
    requires
        key@.len() == 5,
    ensures
        r == spec_lookup_len5(key@),
{
    if bytes_eq(key, &[48u8, 49, 85, 69, 49]) {
        return Some(70);
    }
    if bytes_eq(key, &[48u8, 49, 85, 69, 75]) {
        return Some(70);
    }
    if bytes_eq(key, &[65u8, 76, 84, 69, 82]) {
        return Some(107);
    }
    if bytes_eq(key, &[65u8, 83, 67, 73, 73]) {
        return Some(102);
    }
    if bytes_eq(key, &[67u8, 79, 85, 78, 84]) {
        return Some(102);
    }
    if bytes_eq(key, &[68u8, 69, 76, 65, 89]) {
        return Some(107);
    }
    if bytes_eq(key, &[76u8, 73, 77, 73, 84]) {
        return Some(66);
    }
    if bytes_eq(key, &[78u8, 67, 72, 65, 82]) {
        return Some(116);
    }
    if bytes_eq(key, &[82u8, 76, 73, 75, 69]) {
        return Some(111);
    }
    if bytes_eq(key, &[83u8, 76, 69, 69, 80]) {
        return Some(102);
    }
    if bytes_eq(key, &[84u8, 65, 66, 76, 69]) {
        return Some(107);
    }
    if bytes_eq(key, &[85u8, 78, 72, 69, 88]) {
        return Some(102);
    }
    if bytes_eq(key, &[85u8, 78, 73, 79, 78]) {
        return Some(85);
    }
    if bytes_eq(key, &[87u8, 72, 69, 82, 69]) {
        return Some(107);
    }
    None
}

fn lookup_len6(key: &[u8]) -> (r: Option<u8>)
    requires
        key@.len() == 6,
    ensures
        r == spec_lookup_len6(key@),
{
    if bytes_eq(key, &[48u8, 83, 38, 40, 49, 41]) {
        return Some(70);
    }
    if bytes_eq(key, &[48u8, 83, 38, 83, 79, 83]) {
        return Some(70);
    }
    if bytes_eq(key, &[48u8, 83, 85, 69, 79, 75]) {
        return Some(70);
    }
    if bytes_eq(key, &[66u8, 73, 71, 73, 78, 84]) {
        return Some(116);
    }
    if bytes_eq(key, &[66u8, 73, 78, 65, 82, 89]) {
        return Some(116);
    }
    if bytes_eq(key, &[67u8, 79, 78, 67, 65, 84]) {
        return Some(102);
    }
    if bytes_eq(key, &[67u8, 82, 69, 65, 84, 69]) {
        return Some(107);
    }
    if bytes_eq(key, &[68u8, 69, 76, 69, 84, 69]) {
        return Some(69);
    }
    if bytes_eq(key, &[72u8, 65, 86, 73, 78, 71]) {
        return Some(66);
    }
    if bytes_eq(key, &[73u8, 70, 78, 85, 76, 76]) {
        return Some(102);
    }
    if bytes_eq(key, &[73u8, 78, 83, 69, 82, 84]) {
        return Some(69);
    }
    if bytes_eq(key, &[73u8, 83, 32, 78, 79, 84]) {
        return Some(111);
    }
    if bytes_eq(key, &[76u8, 69, 78, 71, 84, 72]) {
        return Some(102);
    }
    if bytes_eq(key, &[78u8, 79, 84, 32, 73, 78]) {
        return Some(107);
    }
    if bytes_eq(key, &[82u8, 69, 71, 69, 88, 80]) {
        return Some(111);
    }
    if bytes_eq(key, &[83u8, 67, 72, 69, 77, 65]) {
        return Some(102);
    }
    if bytes_eq(key, &[83u8, 69, 76, 69, 67, 84]) {
        return Some(69);
    }
    if bytes_eq(key, &[83u8, 73, 71, 78, 69, 68]) {
        return Some(116);
    }
    if bytes_eq(key, &[83u8, 85, 66, 83, 84, 82]) {
        return Some(102);
    }
    if bytes_eq(key, &[85u8, 80, 68, 65, 84, 69]) {
        return Some(69);
    }
    if bytes_eq(key, &[86u8, 65, 76, 85, 69, 83]) {
        return Some(107);
    }
    None
}

fn lookup_len7(key: &[u8]) -> (r: Option<u8>)
    requires
        key@.len() == 7,
    ensures
        r == spec_lookup_len7(key@),
{
    if bytes_eq(key, &[66u8, 69, 84, 87, 69, 69, 78]) {
        return Some(111);
    }
    if bytes_eq(key, &[67u8, 79, 76, 76, 65, 84, 69]) {
        return Some(65);
    }
    if bytes_eq(key, &[68u8, 69, 67, 73, 77, 65, 76]) {
        return Some(116);
    }
    if bytes_eq(key, &[68u8, 69, 67, 76, 65, 82, 69]) {
        return Some(107);
    }
    if bytes_eq(key, &[69u8, 88, 69, 67, 85, 84, 69]) {
        return Some(107);
    }
    if bytes_eq(key, &[73u8, 78, 84, 69, 71, 69, 82]) {
        return Some(116);
    }
    if bytes_eq(key, &[86u8, 65, 82, 67, 72, 65, 82]) {
        return Some(116);
    }
    if bytes_eq(key, &[86u8, 69, 82, 83, 73, 79, 78]) {
        return Some(102);
    }
    if bytes_eq(key, &[87u8, 65, 73, 84, 70, 79, 82]) {
        return Some(107);
    }
    None
}

fn lookup_len8(key: &[u8]) -> (r: Option<u8>)
    requires
        key@.len() == 8,
    ensures
        r == spec_lookup_len8(key@),
{
    if bytes_eq(key, &[67u8, 79, 65, 76, 69, 83, 67, 69]) {
        return Some(102);
    }
    if bytes_eq(key, &[68u8, 73, 83, 84, 73, 78, 67, 84]) {
        return Some(107);
    }
    if bytes_eq(key, &[71u8, 82, 79, 85, 80, 32, 66, 89]) {
        return Some(66);
    }
    if bytes_eq(key, &[78u8, 79, 84, 32, 76, 73, 75, 69]) {
        return Some(111);
    }
    if bytes_eq(key, &[78u8, 86, 65, 82, 67, 72, 65, 82]) {
        return Some(116);
    }
    if bytes_eq(key, &[79u8, 82, 68, 69, 82, 32, 66, 89]) {
        return Some(66);
    }
    if bytes_eq(key, &[80u8, 71, 95, 83, 76, 69, 69, 80]) {
        return Some(102);
    }
    if bytes_eq(key, &[83u8, 72, 85, 84, 68, 79, 87, 78]) {
        return Some(107);
    }
    if bytes_eq(key, &[83u8, 77, 65, 76, 76, 73, 78, 84]) {
        return Some(116);
    }
    if bytes_eq(key, &[84u8, 82, 85, 78, 67, 65, 84, 69]) {
        return Some(107);
    }
    if bytes_eq(key, &[85u8, 78, 83, 73, 71, 78, 69, 68]) {
        return Some(116);
    }
    None
}

fn lookup_len9(key: &[u8]) -> (r: Option<u8>)
    requires
        key@.len() == 9,
    ensures
        r == spec_lookup_len9(key@),
{
    if bytes_eq(key, &[66u8, 69, 78, 67, 72, 77, 65, 82, 75]) {
        return Some(102);
    }
    if bytes_eq(key, &[67u8, 79, 78, 67, 65, 84, 95, 87, 83]) {
        return Some(102);
    }
    if bytes_eq(key, &[76u8, 79, 65, 68, 95, 70, 73, 76, 69]) {
        return Some(102);
    }
    if bytes_eq(key, &[80u8, 82, 79, 67, 69, 68, 85, 82, 69]) {
        return Some(107);
    }
    if bytes_eq(key, &[83u8, 85, 66, 83, 84, 82, 73, 78, 71]) {
        return Some(102);
    }
    if bytes_eq(key, &[85u8, 78, 73, 79, 78, 32, 65, 76, 76]) {
        return Some(85);
    }
    if bytes_eq(key, &[85u8, 80, 68, 65, 84, 69, 88, 77, 76]) {
        return Some(102);
    }
    None
}

fn lookup_len11(key: &[u8]) -> (r: Option<u8>)
    requires
        key@.len() == 11,
    ensures
        r == spec_lookup_len11(key@),
{
    if bytes_eq(key, &[78u8, 79, 84, 32, 66, 69, 84, 87, 69, 69, 78]) {
        return Some(111);
    }
    if bytes_eq(key, &[83u8, 79, 85, 78, 68, 83, 32, 76, 73, 75, 69]) {
        return Some(111);
    }
    if bytes_eq(key, &[83u8, 89, 83, 84, 69, 77, 95, 85, 83, 69, 82]) {
        return Some(102);
    }
    if bytes_eq(key, &[88u8, 80, 95, 67, 77, 68, 83, 72, 69, 76, 76]) {
        return Some(102);
    }
    None
}

fn lookup_len12(key: &[u8]) -> (r: Option<u8>)
    requires
        key@.len() == 12,
    ensures
        r == spec_lookup_len12(key@),
{
    if bytes_eq(key, &[69u8, 88, 84, 82, 65, 67, 84, 86, 65, 76, 85, 69]) {
        return Some(102);
    }
    if bytes_eq(key, &[73u8, 78, 84, 79, 32, 79, 85, 84, 70, 73, 76, 69]) {
        return Some(107);
    }
    if bytes_eq(key, &[83u8, 69, 83, 83, 73, 79, 78, 95, 85, 83, 69, 82]) {
        return Some(102);
    }
    None
}

fn lookup_len13(key: &[u8]) -> (r: Option<u8>)
    requires
        key@.len() == 13,
    ensures
        r == spec_lookup_len13(key@),
{
    if bytes_eq(key, &[73u8, 78, 84, 79, 32, 68, 85, 77, 80, 70, 73, 76, 69]) {
        return Some(107);
    }
    None
}

fn lookup_len14(key: &[u8]) -> (r: Option<u8>)
    requires
        key@.len() == 14,
    ensures
        r == spec_lookup_len14(key@),
{
    if bytes_eq(key, &[85u8, 78, 73, 79, 78, 32, 68, 73, 83, 84, 73, 78, 67, 84]) {
        return Some(85);
    }
    None
}

/// Exact byte-string equality.
pub fn bytes_eq(a: &[u8], b: &[u8]) -> (r: bool)
    ensures
        r == (a@ == b@),
{
    if a.len() != b.len() {
        return false;
    }
    let mut i: usize = 0;
    while i < a.len()
        invariant
            a.len() == b.len(),
            i <= a.len(),
            forall|k: int| 0 <= k < i ==> a@[k] == b@[k],
        decreases a.len() - i,
    {
        if a[i] != b[i] {
            return false;
        }
        i += 1;
    }
    proof {
        assert(a@ =~= b@);
    }
    true
}

/// Look up an (already uppercase) key in the table.
pub fn lookup_keyword_bytes(key: &[u8]) -> (r: Option<u8>)
    ensures
        r == spec_lookup_keyword(key@),
{
    if key.len() == 2 {
        lookup_len2(key)
    } else if key.len() == 3 {
        lookup_len3(key)
    } else if key.len() == 4 {
        lookup_len4(key)
    } else if key.len() == 5 {
        lookup_len5(key)
    } else if key.len() == 6 {
        lookup_len6(key)
    } else if key.len() == 7 {
        lookup_len7(key)
    } else if key.len() == 8 {
        lookup_len8(key)
    } else if key.len() == 9 {
        lookup_len9(key)
    } else if key.len() == 11 {
        lookup_len11(key)
    } else if key.len() == 12 {
        lookup_len12(key)
    } else if key.len() == 13 {
        lookup_len13(key)
    } else if key.len() == 14 {
        lookup_len14(key)
    } else {
        None
    }
}

/// The key that [`search_keyword`] looks up: the first (at most 64) bytes of
/// `key`, uppercased.
pub open spec fn search_key(key: Seq<u8>) -> Seq<u8> {
    let n = if key.len() > 64 { 64int } else { key.len() as int };
    Seq::new(n as nat, |i: int| upper(key[i]))
}

/// The type byte that a lookup of `key` yields ([`BYTE_NULL`] on a miss).
pub open spec fn spec_search_keyword(key: Seq<u8>) -> u8 {
    match spec_lookup_keyword(search_key(key)) {
        Some(v) => v,
        None => BYTE_NULL,
    }
}

/// Uppercase `key`, look it up in the table.
/// Returns the type byte or [`BYTE_NULL`] on miss.
pub fn search_keyword(key: &[u8]) -> (r: u8)
    ensures
        r == spec_search_keyword(key@),
{
    let mut buf = [0u8; 64];
    let len = if key.len() > 64 { 64 } else { key.len() };
    let mut i: usize = 0;
    while i < len
        invariant
            len <= 64,
            len <= key@.len(),
            len == if key@.len() > 64 { 64int } else { key@.len() as int },
            i <= len,
            forall|k: int| 0 <= k < i ==> buf@[k] == upper(key@[k]),
        decreases len - i,
    {
        buf[i] = to_upper(key[i]);
        i += 1;
    }
    let s: &[u8] = buf.as_slice();
    let slice = &s[0..len];
    proof {
        assert(slice@ =~= search_key(key@));
    }
    match lookup_keyword_bytes(slice) {
        Some(v) => v,
        None => BYTE_NULL,
    }
}

/// Resolve a word or operator while tokenizing (fingerprint lookups yield
/// [`BYTE_NULL`]; they go through the blacklist instead).
pub fn lookup_word(lookup_type: u8, word: &[u8]) -> (r: u8)
    ensures
        lookup_type == LOOKUP_FINGERPRINT ==> r == BYTE_NULL,
        lookup_type != LOOKUP_FINGERPRINT ==> r == spec_search_keyword(word@),
{
    if lookup_type == LOOKUP_FINGERPRINT {
        return BYTE_NULL;
    }
    search_keyword(word)
}

/// No key of the table is empty.
pub proof fn lemma_no_empty_key()
    ensures
        spec_search_keyword(Seq::empty()) == BYTE_NULL,
{
    assert(search_key(Seq::<u8>::empty()) =~= Seq::<u8>::empty());
}

} // verus!
