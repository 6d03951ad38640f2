//! Window styles of the game window.

use vstd::prelude::*;

verus! {

/// The style word with the bits of `style_to_remove` cleared. The complement
/// of the 32-bit mask is widened without sign extension, so on a 64-bit
/// system the upper half of the style word is cleared as well.
pub fn style_without(style: isize, style_to_remove: u32) -> (r: isize)
    ensures
        r == style & ((!style_to_remove) as isize),
        r & (style_to_remove as isize) == 0,
{
    let r = style & ((!style_to_remove) as isize);
    assert(r & (style_to_remove as isize) == 0) by (bit_vector)
        requires
            r == style & ((!style_to_remove) as isize),
    ;
    r
}

} // verus!
