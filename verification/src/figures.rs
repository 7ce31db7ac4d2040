//! Figures the venue did not state, written the way the reference client
//! writes them so a caller's library reads them back as nothing.
use vstd::prelude::*;

verus! {

/// The largest double, written out in decimal: how the reference stack writes
/// a figure carried as text that nobody stated.
pub open spec fn unstated_text() -> Seq<char> {
    "179769313486231570000000000000000000000000000000000000000000000000000000000000000000000000000000000000000000000000000000000000000000000000000000000000000000000000000000000000000000000000000000000000000000000000000000000000000000000000000000000000000000000000000000000000000000000000000000000000000000000000000"@
}

/// A margin or equity figure as a caller reads it: as the venue wrote it, or,
/// where it wrote nothing, the largest double. Empty, a caller's `float`
/// raises inside the callback and the whole answer is lost.
pub fn unstated_figure(stated: &str) -> (r: String)
    ensures
        stated@.len() == 0 ==> r@ == unstated_text(),
        stated@.len() != 0 ==> r@ == stated@,
{
    if stated.unicode_len() == 0 {
        String::from_str("179769313486231570000000000000000000000000000000000000000000000000000000000000000000000000000000000000000000000000000000000000000000000000000000000000000000000000000000000000000000000000000000000000000000000000000000000000000000000000000000000000000000000000000000000000000000000000000000000000000000000000000")
    } else {
        String::from_str(stated)
    }
}

} // verus!
