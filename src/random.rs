//! The random source: uniform fractions drawn from the thread-local generator.

use vstd::prelude::*;
use crate::fixed::FRAC;
use crate::model::{GrainDraws, SatelliteDraw};

verus! {

/// Relies on rand::thread_rng and rand::Rng::gen_range: a value drawn
/// uniformly from `0..bound`, which is never empty here.
#[verifier::external_body]
fn draw_below(bound: u64) -> (r: u64)
    requires
        bound > 0,
    ensures
        r < bound,
{
    rand::Rng::gen_range(&mut rand::thread_rng(), 0..bound)
}

/// A uniform fraction out of `FRAC`.
pub fn draw_fraction() -> (r: u64)
    ensures
        r < FRAC,
{
    draw_below(FRAC)
}

/// Fresh fractions for one grain.
pub fn draw_grain() -> (r: GrainDraws)
    ensures
        r.wf(),
{
    GrainDraws {
        x: draw_fraction(),
        y: draw_fraction(),
        mode: draw_fraction(),
        size: draw_fraction(),
        opacity: draw_fraction(),
        opacity_jitter: draw_fraction(),
        shape: draw_fraction(),
    }
}

/// Fresh fractions for one satellite grain.
pub fn draw_satellite() -> (r: SatelliteDraw)
    ensures
        r.wf(),
{
    SatelliteDraw {
        angle: draw_fraction(),
        distance: draw_fraction(),
        size: draw_fraction(),
        opacity: draw_fraction(),
        shape: draw_fraction(),
    }
}

} // verus!
