//! Small operations on the command line's text.

use vstd::prelude::*;
use vstd::string::*;

verus! {

/// `String::push` of the standard library, which appends one character to
/// the end of the string. Taken on trust: the string afterwards is the string
/// before followed by `ch`.
pub assume_specification[ String::push ](text: &mut String, ch: char)
    ensures
        final(text)@ == old(text)@.push(ch),
;

/// `text` followed by `c`.
pub fn with_char(text: &str, c: char) -> (longer: String)
    ensures
        longer@ == text@.push(c),
{
    let mut longer = text.to_owned();
    longer.push(c);
    longer
}

/// `text` without its last character.
pub fn without_last(text: &str) -> (shorter: String)
    requires
        text@.len() > 0,
    ensures
        shorter@ == text@.drop_last(),
{
    let count = text.unicode_len();
    String::from_str(text.substring_char(0, count - 1))
}

} // verus!
