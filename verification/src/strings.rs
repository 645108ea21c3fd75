//! What the library relies on of the standard string type beyond what the
//! verifier's own library states.

use vstd::prelude::*;

verus! {

/// `String::push` appends the given character to the end of the string, as
/// its documentation says.
pub assume_specification[ String::push ](text: &mut String, ch: char)
    ensures
        final(text)@ == old(text)@.push(ch),
;

} // verus!
