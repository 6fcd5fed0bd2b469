//! Choosing between a decorated and a plain rendering of a glyph. Whether the
//! terminal takes the decorated one is read from the environment by the
//! surrounding program and handed in as a plain answer.
use vstd::prelude::*;

verus! {

/// The decorated string when the terminal supports it, the fallback
/// otherwise.
pub fn get_unicode_string<'a>(
    unicode_string: &'a str,
    fallback_string: &'a str,
    unicode_supported: bool,
) -> (r: &'a str)
    ensures
        unicode_supported ==> r@ == unicode_string@,
        !unicode_supported ==> r@ == fallback_string@,
{
    if unicode_supported {
        unicode_string
    } else {
        fallback_string
    }
}

} // verus!
