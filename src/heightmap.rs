use vstd::prelude::*;

verus! {

/// The index, in a vertex list laid out `width` to a row, of the vertex at
/// column `x`, row offset `y`.
pub fn coords_to_inline(x: u32, y: u32, width: u32) -> (r: u32)
    requires
        x * width + y <= u32::MAX,
    ensures
        r == x * width + y,
{
    assert(x * width <= u32::MAX) by (nonlinear_arith)
        requires
            x * width + y <= u32::MAX,
            y >= 0,
    ;
    x * width + y
}

} // verus!
