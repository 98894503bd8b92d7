//! Post-generation effects: film aging, fractal clustering by measured
//! statistics, and the colour of the grains.

use vstd::prelude::*;
use crate::cluster::{
    apply_enhanced_clustering_realistic, cluster_limit, clustered_spec, plan_fits, ClusterMode,
};
use crate::fixed::{clamp_spec, clamp_wide, div_floor};
use crate::model::{
    grain_wf, grains_wf, plan_wf, AgingEffects, ClusterDraw, ColorCrossover, EnhancedFilmData,
    Grain, RenderParams, Rgb, MAX_OPACITY, MAX_SHAPE, MAX_SIZE, MIN_OPACITY, MIN_SHAPE, MIN_SIZE,
};

verus! {

/// Film age beyond which aging has no further effect, thousandths of a year.
pub const MAX_AGE: u32 = 10_000;

/// Storage temperature assumed when none is given, thousandths of a degree.
pub const DEFAULT_STORAGE_TEMP: i32 = 20_000;

/// The age that counts: at most ten years.
pub open spec fn capped_age(age: int) -> int {
    if age > MAX_AGE {
        MAX_AGE as int
    } else {
        age
    }
}

/// Weight of the storage temperature, permille: the temperature normalised
/// against the range from -18 to 25 degrees, times the stock's factor.
pub open spec fn temp_effect(temp: int, aging: AgingEffects) -> int {
    (temp + 18_000) * aging.storage_temp_factor / 43_000
}

/// Opacity growth factor, permille.
pub open spec fn grain_boost(age: int, temp: int, aging: AgingEffects) -> int {
    1000 + capped_age(age) * aging.grain_increase_per_year * (1000 + temp_effect(temp, aging))
        / 1_000_000
}

/// Contrast retention factor, permille.
pub open spec fn contrast_keep(age: int, temp: int, aging: AgingEffects) -> int {
    1000 - capped_age(age) * aging.contrast_loss_per_year * (1000 + temp_effect(temp, aging))
        / 1_000_000
}

/// A grain after `age` (thousandths of a year) of storage at `temp`
/// (thousandths of a degree): opacity scaled by growth and contrast loss,
/// size grown by 2% a year, shape factor reduced by 1% a year, each kept in
/// its range.
pub open spec fn aged_spec(g: Grain, age: int, temp: int, aging: AgingEffects) -> Grain {
    let a = capped_age(age);
    Grain {
        opacity: clamp_spec(
            g.opacity * grain_boost(age, temp, aging) * contrast_keep(age, temp, aging) / 1_000_000,
            MIN_OPACITY as int,
            MAX_OPACITY as int,
        ) as u64,
        size: clamp_spec(g.size * (1000 + a * 20 / 1000) / 1000, MIN_SIZE as int, MAX_SIZE as int)
            as u64,
        shape_factor: clamp_spec(
            g.shape_factor * (1000 - a * 10 / 1000) / 1000,
            MIN_SHAPE as int,
            MAX_SHAPE as int,
        ) as u64,
        ..g
    }
}

fn aged(g: &Grain, age: u32, temp: i32, aging: &AgingEffects) -> (r: Grain)
    requires
        aging.wf(),
        g.opacity <= MAX_OPACITY,
        g.size <= MAX_SIZE,
        g.shape_factor <= MAX_SHAPE,
    ensures
        r == aged_spec(*g, age as int, temp as int, *aging),
{
    let a: i128 = if age > MAX_AGE {
        MAX_AGE as i128
    } else {
        age as i128
    };
    let t = temp as i128 + 18_000;
    let f = aging.storage_temp_factor as i128;
    assert(-0x1_0000_0000 * 10_000 <= t * f <= 0x1_0000_0000 * 10_000) by (nonlinear_arith)
        requires
            -0x1_0000_0000 <= t <= 0x1_0000_0000,
            -10_000 <= f <= 10_000,
    ;
    let te = div_floor(t * f, 43_000);
    assert(-1_000_000_000 <= te <= 1_000_000_000) by (nonlinear_arith)
        requires
            te == (t * f) / 43_000,
            -0x1_0000_0000 * 10_000 <= t * f <= 0x1_0000_0000 * 10_000,
    ;
    let inc = aging.grain_increase_per_year as i128;
    let loss = aging.contrast_loss_per_year as i128;
    assert(0 <= a * inc <= 10_000_000 && 0 <= a * loss <= 10_000_000) by (nonlinear_arith)
        requires
            0 <= a <= 10_000,
            0 <= inc <= 1000,
            0 <= loss <= 1000,
    ;
    let ai = a * inc;
    let al = a * loss;
    assert(-10_000_000 * 1_000_001_000int <= ai * (1000 + te) <= 10_000_000 * 1_000_001_000int
        && -10_000_000 * 1_000_001_000int <= al * (1000 + te) <= 10_000_000 * 1_000_001_000int)
        by (nonlinear_arith)
        requires
            0 <= ai <= 10_000_000,
            0 <= al <= 10_000_000,
            -1_000_000_000 <= te <= 1_000_000_000,
    ;
    let boost = 1000 + div_floor(ai * (1000 + te), 1_000_000);
    let keep = 1000 - div_floor(al * (1000 + te), 1_000_000);
    assert(-20_000_000_000 <= boost <= 20_000_000_000 && -20_000_000_000 <= keep <= 20_000_000_000)
        by (nonlinear_arith)
        requires
            boost == 1000 + (ai * (1000 + te)) / 1_000_000,
            keep == 1000 - (al * (1000 + te)) / 1_000_000,
            -10_000_000 * 1_000_001_000int <= ai * (1000 + te) <= 10_000_000 * 1_000_001_000int,
            -10_000_000 * 1_000_001_000int <= al * (1000 + te) <= 10_000_000 * 1_000_001_000int,
    ;
    let op = g.opacity as i128;
    assert(-1000 * 20_000_000_000 <= op * boost <= 1000 * 20_000_000_000) by (nonlinear_arith)
        requires
            0 <= op <= 1000,
            -20_000_000_000 <= boost <= 20_000_000_000,
    ;
    let ob = op * boost;
    assert(-1000 * 20_000_000_000 * 20_000_000_000int <= ob * keep <= 1000 * 20_000_000_000
        * 20_000_000_000int) by (nonlinear_arith)
        requires
            -1000 * 20_000_000_000 <= ob <= 1000 * 20_000_000_000,
            -20_000_000_000 <= keep <= 20_000_000_000,
    ;
    let opacity = clamp_wide(div_floor(ob * keep, 1_000_000), MIN_OPACITY, MAX_OPACITY);
    let grow = (1000 + a * 20 / 1000) as u64;
    let shrink = (1000 - a * 10 / 1000) as u64;
    assert(g.size * grow <= MAX_SIZE * 1200 && g.shape_factor * shrink <= MAX_SHAPE * 1000)
        by (nonlinear_arith)
        requires
            g.size <= MAX_SIZE,
            grow <= 1200,
            g.shape_factor <= MAX_SHAPE,
            shrink <= 1000,
    ;
    let size = clamp_wide((g.size * grow / 1000) as i128, MIN_SIZE, MAX_SIZE);
    let shape = clamp_wide((g.shape_factor * shrink / 1000) as i128, MIN_SHAPE, MAX_SHAPE);
    Grain { opacity, size, shape_factor: shape, ..*g }
}

/// Ages every grain in place, as `aged_spec` says.
pub fn apply_aging_effects(grains: &mut Vec<Grain>, age: u32, storage_temp: i32, aging: &AgingEffects)
    requires
        aging.wf(),
        forall|i: int|
            0 <= i < old(grains)@.len() ==> #[trigger] old(grains)@[i].opacity <= MAX_OPACITY
                && old(grains)@[i].size <= MAX_SIZE && old(grains)@[i].shape_factor <= MAX_SHAPE,
    ensures
        final(grains).len() == old(grains).len(),
        forall|i: int|
            0 <= i < final(grains)@.len() ==> #[trigger] final(grains)@[i] == aged_spec(
                old(grains)@[i],
                age as int,
                storage_temp as int,
                *aging,
            ),
{
    let ghost start = grains@;
    let n = grains.len();
    let mut i: usize = 0;
    while i < n
        invariant
            i <= n,
            n == start.len(),
            grains.len() == n,
            aging.wf(),
            forall|k: int|
                0 <= k < n ==> #[trigger] start[k].opacity <= MAX_OPACITY && start[k].size
                    <= MAX_SIZE && start[k].shape_factor <= MAX_SHAPE,
            forall|k: int|
                0 <= k < i ==> #[trigger] grains@[k] == aged_spec(
                    start[k],
                    age as int,
                    storage_temp as int,
                    *aging,
                ),
            forall|k: int| i <= k < n ==> #[trigger] grains@[k] == start[k],
        decreases n - i,
    {
        let g = aged(&grains[i], age, storage_temp, aging);
        grains.set(i, g);
        i = i + 1;
    }
}

/// An aged well-formed grain is still well formed.
pub proof fn lemma_aged_wf(g: Grain, age: int, temp: int, aging: AgingEffects, width: int, height: int)
    requires
        grain_wf(g, width, height),
    ensures
        grain_wf(aged_spec(g, age, temp, aging), width, height),
{
}

/// The population after aging, when the request asks for it.
pub open spec fn maybe_aged(gs: Seq<Grain>, params: RenderParams, aging: AgingEffects) -> Seq<Grain> {
    match params.film_age {
        Some(age) if age > 0 => Seq::new(
            gs.len(),
            |i: int|
                aged_spec(
                    gs[i],
                    age as int,
                    match params.storage_temp {
                        Some(t) => t as int,
                        None => DEFAULT_STORAGE_TEMP as int,
                    },
                    aging,
                ),
        ),
        _ => gs,
    }
}

/// Applies the measured effects: aging when the request gives a positive
/// film age (at the given storage temperature, 20 degrees by default), then
/// fractal clustering with fresh random draws, by a plan of the shape that
/// the stock's fractal statistics ask for.
pub fn apply_enhanced_effects(grains: &mut Vec<Grain>, params: &RenderParams, enhanced: &EnhancedFilmData)
    requires
        enhanced.wf(),
        grains_wf(old(grains)@, params.width as int, params.height as int),
        old(grains).len() * 13 <= usize::MAX,
    ensures
        exists|plan: Seq<ClusterDraw>|
            plan_wf(plan) && plan_fits(
                plan,
                old(grains).len() as int,
                ClusterMode::Fractal(enhanced.clustering_data),
            ) && final(grains)@ == clustered_spec(
                maybe_aged(old(grains)@, *params, enhanced.aging_effects),
                plan,
                ClusterMode::Fractal(enhanced.clustering_data),
                params.width as int,
                params.height as int,
            ),
        grains_wf(final(grains)@, params.width as int, params.height as int),
        final(grains).len() >= old(grains).len(),
        final(grains).len() <= old(grains).len() * 13,
{
    let ghost start = grains@;
    let ghost w = params.width as int;
    let ghost h = params.height as int;
    match params.film_age {
        Some(age) => {
            if age > 0 {
                let temp = match params.storage_temp {
                    Some(t) => t,
                    None => DEFAULT_STORAGE_TEMP,
                };
                assert forall|i: int| 0 <= i < grains@.len() implies #[trigger] grains@[i].opacity
                    <= MAX_OPACITY && grains@[i].size <= MAX_SIZE && grains@[i].shape_factor
                    <= MAX_SHAPE by {
                    assert(grain_wf(grains@[i], w, h));
                }
                apply_aging_effects(grains, age, temp, &enhanced.aging_effects);
                proof {
                    assert forall|i: int| 0 <= i < grains@.len() implies #[trigger] grain_wf(
                        grains@[i],
                        w,
                        h,
                    ) by {
                        assert(grain_wf(start[i], w, h));
                        lemma_aged_wf(start[i], age as int, temp as int, enhanced.aging_effects, w, h);
                    }
                    assert(grains@ =~= maybe_aged(start, *params, enhanced.aging_effects));
                }
            }
        },
        None => {},
    }
    let n = grains.len();
    let cd = enhanced.clustering_data;
    assert(cluster_limit(n as int, ClusterMode::Fractal(cd)) * 12 <= n * 12) by (nonlinear_arith)
        requires
            cd.cluster_probability <= 1000,
            cluster_limit(n as int, ClusterMode::Fractal(cd)) == n * cd.cluster_probability / 1000,
    ;
    apply_enhanced_clustering_realistic(grains, params.width, params.height, &enhanced.clustering_data);
}

/// One colour channel after dye crossover: the channel plus the other two
/// weighted by their coefficients, within `[0, 255]`.
pub open spec fn crossover_channel(own: int, first: int, w1: int, second: int, w2: int) -> int {
    clamp_spec((1000 * own + first * w1 + second * w2) / 1000, 0, 255)
}

/// The grain colour after dye crossover; unchanged for stocks without
/// crossover.
pub open spec fn crossover_spec(c: Rgb, x: ColorCrossover) -> Rgb {
    if x.red_to_green >= 1000 {
        c
    } else {
        Rgb {
            r: crossover_channel(c.r as int, c.g as int, x.green_to_red as int, c.b as int, x.blue_to_red as int) as u8,
            g: crossover_channel(c.g as int, c.r as int, x.red_to_green as int, c.b as int, x.blue_to_green as int) as u8,
            b: crossover_channel(c.b as int, c.r as int, x.red_to_blue as int, c.g as int, x.green_to_blue as int) as u8,
        }
    }
}

fn crossover_channel_exec(own: u8, first: u8, w1: i32, second: u8, w2: i32) -> (r: u8)
    ensures
        r == crossover_channel(own as int, first as int, w1 as int, second as int, w2 as int),
{
    assert(-255 * 0x8000_0000 <= first * w1 <= 255 * 0x8000_0000 && -255 * 0x8000_0000 <= second
        * w2 <= 255 * 0x8000_0000) by (nonlinear_arith)
        requires
            0 <= first <= 255,
            0 <= second <= 255,
            -0x8000_0000 <= w1 <= 0x8000_0000,
            -0x8000_0000 <= w2 <= 0x8000_0000,
    ;
    let a = first as i128 * w1 as i128;
    let b = second as i128 * w2 as i128;
    let v = div_floor(1000 * own as i128 + a + b, 1000);
    clamp_wide(v, 0, 255) as u8
}

/// Applies dye crossover to a grain colour, as `crossover_spec` says.
pub fn apply_color_crossover(c: Rgb, x: &ColorCrossover) -> (r: Rgb)
    ensures
        r == crossover_spec(c, *x),
{
    if x.red_to_green >= 1000 {
        return c;
    }
    Rgb {
        r: crossover_channel_exec(c.r, c.g, x.green_to_red, c.b, x.blue_to_red),
        g: crossover_channel_exec(c.g, c.r, x.red_to_green, c.b, x.blue_to_green),
        b: crossover_channel_exec(c.b, c.r, x.red_to_blue, c.g, x.green_to_blue),
    }
}

/// The colour of a stock's grains: its base colour, after the dye crossover
/// when the stock has one.
pub open spec fn grain_color_spec(base: Rgb, crossover: Option<ColorCrossover>) -> Rgb {
    match crossover {
        Some(x) => crossover_spec(base, x),
        None => base,
    }
}

/// The colour of a stock's grains, as `grain_color_spec` says; it depends on
/// the stock's data alone.
pub fn get_film_grain_color(base: Rgb, crossover: Option<ColorCrossover>) -> (r: Rgb)
    ensures
        r == grain_color_spec(base, crossover),
{
    match crossover {
        Some(x) => apply_color_crossover(base, &x),
        None => base,
    }
}

} // verus!
