//! Upper and lower case, by the rules of Unicode.

use vstd::prelude::*;
use vstd::utf8::is_ascii_chars;

verus! {

/// What `str::to_uppercase` makes of a text.
pub uninterp spec fn uppercase(text: Seq<char>) -> Seq<char>;

/// What `str::to_lowercase` makes of a text.
pub uninterp spec fn lowercase(text: Seq<char>) -> Seq<char>;

/// The upper-case letter for an ASCII letter; every other character as it is.
pub open spec fn ascii_upper(c: char) -> char {
    if 'a' <= c <= 'z' {
        (c as u32 - 32) as char
    } else {
        c
    }
}

/// The lower-case letter for an ASCII letter; every other character as it is.
pub open spec fn ascii_lower(c: char) -> char {
    if 'A' <= c <= 'Z' {
        (c as u32 + 32) as char
    } else {
        c
    }
}

/// A text with its ASCII letters in upper case.
pub open spec fn raised(text: Seq<char>) -> Seq<char> {
    text.map_values(|c: char| ascii_upper(c))
}

/// A text with its ASCII letters in lower case.
pub open spec fn lowered(text: Seq<char>) -> Seq<char> {
    text.map_values(|c: char| ascii_lower(c))
}

/// `str::to_uppercase`: claims that the result is a function of the text, and that a text
/// in ASCII only has its letters replaced by the upper-case ones.
pub assume_specification[ str::to_uppercase ](text: &str) -> (r: String)
    ensures
        r@ == uppercase(text@),
        is_ascii_chars(text@) ==> r@ == raised(text@),
;

/// `str::to_lowercase`: claims that the result is a function of the text, that the case of
/// the ASCII letters in the text makes no difference to it, and that a text in ASCII only has
/// its letters replaced by the lower-case ones.
pub assume_specification[ str::to_lowercase ](text: &str) -> (r: String)
    ensures
        r@ == lowercase(text@),
        r@ == lowercase(lowered(text@)),
        is_ascii_chars(text@) ==> r@ == lowered(text@),
;

/// Case changes ASCII letters only, each to the letter at the same place in the alphabet, and
/// leaves the length and everything else of a text alone.
pub proof fn law_case_changes_letters_only(text: Seq<char>, i: int)
    requires
        0 <= i < text.len(),
    ensures
        raised(text).len() == text.len(),
        lowered(text).len() == text.len(),
        'a' <= text[i] <= 'z' ==> raised(text)[i] as u32 + 32 == text[i] as u32,
        !('a' <= text[i] <= 'z') ==> raised(text)[i] == text[i],
        'A' <= text[i] <= 'Z' ==> lowered(text)[i] as u32 == text[i] as u32 + 32,
        !('A' <= text[i] <= 'Z') ==> lowered(text)[i] == text[i],
{
}

} // verus!
