use vstd::prelude::*;

verus! {

/// `c` is one of the ASCII capitals `'A'..='Z'`.
pub open spec fn is_ascii_upper(c: char) -> bool {
    'A' <= c && c <= 'Z'
}

/// `c` with an ASCII small letter `'a'..='z'` replaced by its capital; every
/// other character is left as it is.
pub open spec fn ascii_upper(c: char) -> char {
    if 'a' <= c && c <= 'z' {
        ((c as u32) - 32) as char
    } else {
        c
    }
}

/// std's `char::is_ascii_uppercase`: its documentation says it checks for the
/// range U+0041 'A' ..= U+005A 'Z'.
pub assume_specification[ char::is_ascii_uppercase ](c: &char) -> (r: bool)
    ensures
        r == is_ascii_upper(*c),
;

/// std's `char::to_ascii_uppercase`: its documentation says ASCII letters 'a'
/// to 'z' are mapped to 'A' to 'Z' and every other character is unchanged.
pub assume_specification[ char::to_ascii_uppercase ](c: &char) -> (r: char)
    ensures
        r == ascii_upper(*c),
;

} // verus!
