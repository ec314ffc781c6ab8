//! What the lexer takes from the standard library without proof: the Unicode
//! character classes, appending to a `String`, and comparing string slices.
//! Verus believes the contracts below; nothing here is verified.

use vstd::prelude::*;

verus! {

/// Whether `c` has Unicode's `Alphabetic` property, as `char::is_alphabetic`
/// decides it.
pub uninterp spec fn alphabetic(c: char) -> bool;

/// Whether `c` is alphabetic or numeric in Unicode's sense, as
/// `char::is_alphanumeric` decides it.
pub uninterp spec fn alphanumeric(c: char) -> bool;

/// `char::is_alphabetic` looks `c` up in Unicode's tables: the answer depends
/// on `c` alone and is known here only as `alphabetic(c)`.
pub assume_specification[ char::is_alphabetic ](c: char) -> (yes: bool)
    ensures
        yes == alphabetic(c),
;

/// `char::is_alphanumeric` looks `c` up in Unicode's tables: the answer
/// depends on `c` alone and is known here only as `alphanumeric(c)`.
pub assume_specification[ char::is_alphanumeric ](c: char) -> (yes: bool)
    ensures
        yes == alphanumeric(c),
;

/// `String::push` appends `c` to the end of the string and changes nothing
/// before it.
pub assume_specification[ String::push ](text: &mut String, c: char)
    ensures
        final(text)@ == old(text)@.push(c),
;

/// `==` on string slices holds exactly when the two hold the same characters
/// in the same order.
pub assume_specification[ <str as PartialEq>::eq ](a: &str, b: &str) -> (same: bool)
    ensures
        same == (a@ == b@),
;

} // verus!
