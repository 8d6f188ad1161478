//! ASCII letter classes and case folding on single bytes and byte sequences.
//!
//! Only the fifty-two ASCII letters have a case here. Every other byte,
//! including each byte of a multi-byte character, is left as it is.

use vstd::prelude::*;

verus! {

/// `b` is one of `A` to `Z`.
pub open spec fn is_upper(b: u8) -> bool {
    0x41 <= b <= 0x5a
}

/// `b` is one of `a` to `z`.
pub open spec fn is_lower(b: u8) -> bool {
    0x61 <= b <= 0x7a
}

/// `b` with a capital letter replaced by its small letter.
pub open spec fn fold_lower(b: u8) -> u8 {
    if is_upper(b) {
        (b + 0x20) as u8
    } else {
        b
    }
}

/// `b` with a small letter replaced by its capital letter.
pub open spec fn fold_upper(b: u8) -> u8 {
    if is_lower(b) {
        (b - 0x20) as u8
    } else {
        b
    }
}

/// The two bytes are the same letter in either case, or the same byte.
pub open spec fn same_letter(a: u8, b: u8) -> bool {
    fold_lower(a) == fold_lower(b)
}

/// `s` with every byte folded to lower case.
pub open spec fn lower_seq(s: Seq<u8>) -> Seq<u8> {
    Seq::new(s.len(), |i: int| fold_lower(s[i]))
}

/// `s` with every byte folded to upper case.
pub open spec fn upper_seq(s: Seq<u8>) -> Seq<u8> {
    Seq::new(s.len(), |i: int| fold_upper(s[i]))
}

/// Tests whether `b` is an ASCII capital letter.
pub fn is_ascii_upper(b: u8) -> (r: bool)
    ensures
        r == is_upper(b),
{
    0x41 <= b && b <= 0x5a
}

/// Tests whether `b` is an ASCII small letter.
pub fn is_ascii_lower(b: u8) -> (r: bool)
    ensures
        r == is_lower(b),
{
    0x61 <= b && b <= 0x7a
}

/// Folds an ASCII capital letter to its small letter.
pub fn to_ascii_lower(b: u8) -> (r: u8)
    ensures
        r == fold_lower(b),
{
    if is_ascii_upper(b) {
        b + 0x20
    } else {
        b
    }
}

/// Folds an ASCII small letter to its capital letter.
pub fn to_ascii_upper(b: u8) -> (r: u8)
    ensures
        r == fold_upper(b),
{
    if is_ascii_lower(b) {
        b - 0x20
    } else {
        b
    }
}

} // verus!
