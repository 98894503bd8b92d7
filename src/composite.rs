//! Compositing a rendered grain layer over a photograph of the same size.

use vstd::prelude::*;
use crate::raster::blend_channel;

verus! {

/// Sample `i` of a photograph after the grain layer is blended over it:
/// colour samples alpha-blended by the grain pixel's alpha, the
/// photograph's own alpha kept.
pub open spec fn composite_sample(base: Seq<u8>, grain: Seq<u8>, i: int) -> u8 {
    if i % 4 == 3 {
        base[i]
    } else {
        blend_channel(base[i] as int, grain[i] as int, grain[i - i % 4 + 3] as int) as u8
    }
}

/// Blends a grain layer over a photograph in place, pixel by pixel.
pub fn composite_grain(base: &mut Vec<u8>, grain: &Vec<u8>)
    requires
        old(base).len() == grain.len(),
        grain.len() % 4 == 0,
    ensures
        final(base).len() == old(base).len(),
        forall|i: int|
            0 <= i < final(base).len() ==> #[trigger] final(base)@[i] == composite_sample(
                old(base)@,
                grain@,
                i,
            ),
{
    let ghost start = base@;
    let n = base.len();
    let mut i: usize = 0;
    while i < n
        invariant
            i <= n,
            n == start.len(),
            base.len() == n,
            grain.len() == n,
            n % 4 == 0,
            forall|k: int| 0 <= k < i ==> #[trigger] base@[k] == composite_sample(start, grain@, k),
            forall|k: int| i <= k < n ==> #[trigger] base@[k] == start[k],
        decreases n - i,
    {
        if i % 4 != 3 {
            let alpha_at = i - i % 4 + 3;
            let a = grain[alpha_at] as u32;
            let b = base[i] as u32;
            let g = grain[i] as u32;
            assert(b * (255 - a) + g * a <= 255 * 255) by (nonlinear_arith)
                requires
                    b <= 255,
                    g <= 255,
                    a <= 255,
            ;
            let v = (b * (255 - a) + g * a) / 255;
            base.set(i, v as u8);
        }
        i = i + 1;
    }
}

} // verus!
