use vstd::prelude::*;

verus! {

/// Whether `c` belongs to one of the Unicode general categories for numbers.
pub uninterp spec fn char_is_numeric(c: char) -> bool;

/// Whether `c` has the Unicode `Alphabetic` property.
pub uninterp spec fn char_is_alphabetic(c: char) -> bool;

/// `char::is_numeric` of std is a function of the character alone; its
/// result is named `char_is_numeric`, and nothing more is claimed of it.
pub assume_specification[ char::is_numeric ](c: char) -> (b: bool)
    ensures
        b == char_is_numeric(c),
;

/// `char::is_alphabetic` of std is a function of the character alone; its
/// result is named `char_is_alphabetic`, and nothing more is claimed of it.
pub assume_specification[ char::is_alphabetic ](c: char) -> (b: bool)
    ensures
        b == char_is_alphabetic(c),
;

/// Whether there is a neighbour and it is numeric. The neighbour comes
/// with its place in the scan, which plays no part.
pub fn is_number(c: Option<&(usize, char)>) -> (b: bool)
    ensures
        b == match c {
            Some(p) => char_is_numeric(p.1),
            None => false,
        },
{
    match c {
        Some(p) => p.1.is_numeric(),
        None => false,
    }
}

/// Whether there is a neighbour and it is a closing parenthesis.
pub fn is_rparen(c: Option<&(usize, char)>) -> (b: bool)
    ensures
        b == match c {
            Some(p) => p.1 == ')',
            None => false,
        },
{
    match c {
        Some(p) => p.1 == ')',
        None => false,
    }
}

/// The characters of `s`, one element for each, so that an offset into
/// the text is an index.
pub fn decode(s: &str) -> (v: Vec<char>)
    ensures
        v@ == s@,
{
    let mut v: Vec<char> = Vec::new();
    for c in it: s.chars()
        invariant
            v@ == it.seq().take(it.index() as int),
    {
        v.push(c);
    }
    v
}

} // verus!
