//! The grain population generator: how many grains a canvas gets, and how
//! each grain's position, size, opacity and shape follow from its draws.

use vstd::prelude::*;
use crate::fixed::{clamp_spec, clamp_wide, lerp, lerp_spec, FRAC};
use crate::cluster::{
    apply_cluster_plan, cluster_limit, clustered_spec, clusters_used, draw_cluster_plan,
    lemma_clustered_extend, lemma_heavy_clustering_adds_grains, plan_fits, satellite_spec,
    seed_index, ClusterMode,
};
use crate::random::draw_grain;
use crate::model::{
    grain_wf, grains_wf, plan_wf, ClusterDraw, ClusteringCategory, CrystalShape, FilmStockProfile, Grain, GrainDraws, RenderParams, VariationData,
    MAX_OPACITY, MAX_SHAPE, MAX_SIZE, MIN_OPACITY, MIN_SHAPE, MIN_SIZE,
};

verus! {

/// Reference canvas area (1024 x 1024 pixels) times the normalisation
/// constant 31.25 times the density-multiplier denominator 1000.
pub const COUNT_DENOMINATOR: u128 = 32_768_000_000;

/// Number of grains for a canvas: the stock's density, scaled by the canvas
/// area relative to a 1024 x 1024 reference and by the density multiplier,
/// divided by the normalisation constant 31.25, rounded down.
pub open spec fn grain_target_spec(density: int, width: int, height: int, multiplier: int) -> int {
    density * width * height * multiplier / (COUNT_DENOMINATOR as int)
}

/// Number of base grains for a profile and a request.
pub open spec fn target_of(profile: FilmStockProfile, params: RenderParams) -> int {
    grain_target_spec(
        profile.density_per_area as int,
        params.width as int,
        params.height as int,
        params.grain_density as int,
    )
}

/// Computes `target_of`.
pub fn grain_target(profile: &FilmStockProfile, params: &RenderParams) -> (r: u128)
    ensures
        r == target_of(*profile, *params),
{
    let d = profile.density_per_area as u128;
    let w = params.width as u128;
    let h = params.height as u128;
    let m = params.grain_density as u128;
    assert(d * w <= 0xffff_ffff * 0xffff_ffff) by (nonlinear_arith)
        requires
            d <= 0xffff_ffff,
            w <= 0xffff_ffff,
    ;
    let dw = d * w;
    assert(dw * h <= 0xffff_ffff * 0xffff_ffff * 0xffff_ffff) by (nonlinear_arith)
        requires
            dw <= 0xffff_ffff * 0xffff_ffff,
            h <= 0xffff_ffff,
    ;
    let dwh = dw * h;
    assert(dwh * m <= 0xffff_ffff * 0xffff_ffff * 0xffff_ffff * 0xffff_ffffint) by (nonlinear_arith)
        requires
            dwh <= 0xffff_ffff * 0xffff_ffff * 0xffff_ffff,
            m <= 0xffff_ffff,
    ;
    dwh * m / COUNT_DENOMINATOR
}

/// The size-variation coefficient in force: the measured one when given.
pub open spec fn size_variation_of(profile: FilmStockProfile, variation: Option<VariationData>) -> int {
    match variation {
        Some(v) => v.size_variation as int,
        None => profile.size_variation as int,
    }
}

/// The opacity-variation coefficient in force: the measured one when given.
pub open spec fn opacity_variation_of(profile: FilmStockProfile, variation: Option<VariationData>) -> int {
    match variation {
        Some(v) => v.opacity_variation as int,
        None => profile.opacity_variation as int,
    }
}

/// Tri-modal size multiplier, permille: six in ten grains near the average
/// (within half the variation coefficient), three in ten finer, one in ten
/// coarser.
pub open spec fn size_factor_spec(cv: int, mode: int, u: int) -> int {
    if mode < 600_000 {
        lerp_spec(1000 - cv / 2, 1000 + cv / 2, u)
    } else if mode < 900_000 {
        lerp_spec(400, 1000 - cv * 3 / 10, u)
    } else {
        lerp_spec(1000 + cv * 3 / 10, 1800, u)
    }
}

/// Grain size in thousandths of a pixel: half the average diameter in
/// microns, times the size factor and the size multiplier, kept within
/// `[MIN_SIZE, MAX_SIZE]`.
pub open spec fn size_spec(avg_nm: int, factor: int, multiplier: int) -> int {
    let num = avg_nm * factor * multiplier;
    if num < 0 {
        MIN_SIZE as int
    } else {
        clamp_spec(num / 2_000_000, MIN_SIZE as int, MAX_SIZE as int)
    }
}

/// Exposure factor in ten-thousandths: over-exposure adds 0.3 per stop,
/// under-exposure takes 0.2 per stop.
pub open spec fn exposure_factor_spec(ec: int) -> int {
    if ec > 0 {
        10000 + 3 * ec
    } else {
        10000 + 2 * ec
    }
}

/// Grain opacity, permille: a base drawn from the opacity range, times the
/// contrast, an opacity jitter and the exposure factor, kept within
/// `[MIN_OPACITY, MAX_OPACITY]`.
pub open spec fn opacity_spec(
    lo: int,
    hi: int,
    ov: int,
    contrast: int,
    ec: int,
    u_base: int,
    u_jitter: int,
) -> int {
    let base = lerp_spec(lo, hi, u_base);
    let jitter = lerp_spec(1000 - ov / 2, 1000 + ov / 2, u_jitter);
    let p = base * contrast * jitter * exposure_factor_spec(ec);
    if p < 0 {
        MIN_OPACITY as int
    } else {
        clamp_spec(p / 1_000_000_000, MIN_OPACITY as int, MAX_OPACITY as int)
    }
}

/// The range of the random part of the shape factor for each crystal shape,
/// permille.
pub open spec fn shape_range(shape: CrystalShape) -> (int, int) {
    match shape {
        CrystalShape::Irregular => (700, 1000),
        CrystalShape::Tabular => (600, 800),
        CrystalShape::FineIrregular => (800, 1000),
        CrystalShape::ExtremelyFine => (900, 1000),
        CrystalShape::Cubic => (800, 1000),
    }
}

/// Shape factor, permille: the crystal aspect ratio times a draw from the
/// shape's range, kept within `[MIN_SHAPE, MAX_SHAPE]`.
pub open spec fn shape_spec(aw: int, ah: int, shape: CrystalShape, u: int) -> int {
    let aspect = aw * 1000 / ah;
    let (lo, hi) = shape_range(shape);
    clamp_spec(aspect * lerp_spec(lo, hi, u) / 1000, MIN_SHAPE as int, MAX_SHAPE as int)
}

/// A uniform coordinate on an axis of `extent` pixels, in thousandths.
pub open spec fn coord_spec(extent: int, u: int) -> int {
    u * (extent * 1000) / (FRAC as int)
}

/// The grain that a profile, a request and one set of draws give.
pub open spec fn grain_spec(
    profile: FilmStockProfile,
    params: RenderParams,
    variation: Option<VariationData>,
    d: GrainDraws,
) -> Grain {
    let cv = size_variation_of(profile, variation);
    let factor = size_factor_spec(cv, d.mode as int, d.size as int);
    Grain {
        x: coord_spec(params.width as int, d.x as int) as u64,
        y: coord_spec(params.height as int, d.y as int) as u64,
        size: size_spec(profile.avg_size_nm as int, factor, params.size_multiplier as int) as u64,
        opacity: opacity_spec(
            profile.opacity_lo as int,
            profile.opacity_hi as int,
            opacity_variation_of(profile, variation),
            params.contrast as int,
            params.exposure_compensation as int,
            d.opacity as int,
            d.opacity_jitter as int,
        ) as u64,
        shape_factor: shape_spec(
            profile.aspect_width as int,
            profile.aspect_height as int,
            profile.shape,
            d.shape as int,
        ) as u64,
    }
}

fn size_factor(cv: u32, mode: u64, u: u64) -> (r: i64)
    requires
        mode < FRAC,
        u < FRAC,
    ensures
        r == size_factor_spec(cv as int, mode as int, u as int),
        -0x1_0000_0000 <= r <= 0x1_0000_0000,
{
    let c = cv as i64;
    if mode < 600_000 {
        lerp(1000 - c / 2, 1000 + c / 2, u)
    } else if mode < 900_000 {
        lerp(400, 1000 - c * 3 / 10, u)
    } else {
        lerp(1000 + c * 3 / 10, 1800, u)
    }
}

fn grain_size(avg_nm: u32, factor: i64, multiplier: u32) -> (r: u64)
    requires
        -0x1_0000_0000 <= factor <= 0x1_0000_0000,
    ensures
        r == size_spec(avg_nm as int, factor as int, multiplier as int),
        MIN_SIZE <= r <= MAX_SIZE,
{
    let a = avg_nm as i128;
    let f = factor as i128;
    let m = multiplier as i128;
    assert(-0x1_0000_0000 * 0xffff_ffff <= a * f <= 0x1_0000_0000 * 0xffff_ffff) by (nonlinear_arith)
        requires
            0 <= a <= 0xffff_ffff,
            -0x1_0000_0000 <= f <= 0x1_0000_0000,
    ;
    let af = a * f;
    assert(-0x1_0000_0000 * 0xffff_ffff * 0xffff_ffffint <= af * m <= 0x1_0000_0000 * 0xffff_ffff
        * 0xffff_ffffint) by (nonlinear_arith)
        requires
            -0x1_0000_0000 * 0xffff_ffff <= af <= 0x1_0000_0000 * 0xffff_ffff,
            0 <= m <= 0xffff_ffff,
    ;
    let num = af * m;
    if num < 0 {
        MIN_SIZE
    } else {
        clamp_wide(num / 2_000_000, MIN_SIZE, MAX_SIZE)
    }
}

fn exposure_factor(ec: i32) -> (r: i64)
    ensures
        r == exposure_factor_spec(ec as int),
        -0x2_0000_0000 <= r <= 0x2_0000_0000,
{
    let e = ec as i64;
    if e > 0 {
        10000 + 3 * e
    } else {
        10000 + 2 * e
    }
}

fn grain_opacity(
    lo: u16,
    hi: u16,
    ov: u32,
    contrast: u16,
    ec: i32,
    u_base: u64,
    u_jitter: u64,
) -> (r: u64)
    requires
        lo <= hi,
        u_base < FRAC,
        u_jitter < FRAC,
    ensures
        r == opacity_spec(
            lo as int,
            hi as int,
            ov as int,
            contrast as int,
            ec as int,
            u_base as int,
            u_jitter as int,
        ),
        MIN_OPACITY <= r <= MAX_OPACITY,
{
    let o = ov as i64;
    let base = lerp(lo as i64, hi as i64, u_base) as i128;
    let jitter = lerp(1000 - o / 2, 1000 + o / 2, u_jitter) as i128;
    let e = exposure_factor(ec) as i128;
    let c = contrast as i128;
    assert(0 <= base * c <= 0xffff * 0xffff) by (nonlinear_arith)
        requires
            0 <= base <= 0xffff,
            0 <= c <= 0xffff,
    ;
    let bc = base * c;
    assert(-0xffff * 0xffff * 0x1_0000_0000 <= bc * jitter <= 0xffff * 0xffff * 0x1_0000_0000)
        by (nonlinear_arith)
        requires
            0 <= bc <= 0xffff * 0xffff,
            -0x1_0000_0000 <= jitter <= 0x1_0000_0000,
    ;
    let bcj = bc * jitter;
    assert(-0xffff * 0xffff * 0x1_0000_0000 * 0x2_0000_0000int <= bcj * e <= 0xffff * 0xffff
        * 0x1_0000_0000 * 0x2_0000_0000int) by (nonlinear_arith)
        requires
            -0xffff * 0xffff * 0x1_0000_0000 <= bcj <= 0xffff * 0xffff * 0x1_0000_0000,
            -0x2_0000_0000 <= e <= 0x2_0000_0000,
    ;
    let p = bcj * e;
    if p < 0 {
        MIN_OPACITY
    } else {
        clamp_wide(p / 1_000_000_000, MIN_OPACITY, MAX_OPACITY)
    }
}

fn grain_shape(aw: u32, ah: u32, shape: CrystalShape, u: u64) -> (r: u64)
    requires
        ah > 0,
        u < FRAC,
    ensures
        r == shape_spec(aw as int, ah as int, shape, u as int),
        MIN_SHAPE <= r <= MAX_SHAPE,
{
    let aspect: u64 = aw as u64 * 1000 / ah as u64;
    assert(aspect <= 0xffff_ffff * 1000) by (nonlinear_arith)
        requires
            aspect as int == (aw as int * 1000) / ah as int,
            ah >= 1,
            aw <= 0xffff_ffff,
    ;
    let (lo, hi): (i64, i64) = match shape {
        CrystalShape::Irregular => (700, 1000),
        CrystalShape::Tabular => (600, 800),
        CrystalShape::FineIrregular => (800, 1000),
        CrystalShape::ExtremelyFine => (900, 1000),
        CrystalShape::Cubic => (800, 1000),
    };
    let pick = lerp(lo, hi, u) as u64;
    assert(aspect * pick <= 0xffff_ffff * 1000 * 1000) by (nonlinear_arith)
        requires
            aspect <= 0xffff_ffff * 1000,
            pick <= 1000,
    ;
    clamp_wide((aspect * pick / 1000) as i128, MIN_SHAPE, MAX_SHAPE)
}

fn coord(extent: u32, u: u64) -> (r: u64)
    requires
        extent > 0,
        u < FRAC,
    ensures
        r == coord_spec(extent as int, u as int),
        r < extent * 1000,
{
    let span: u64 = extent as u64 * 1000;
    assert(u * span < FRAC * span) by (nonlinear_arith)
        requires
            u < FRAC,
            span > 0,
    ;
    assert(FRAC * span <= 1_000_000 * 0xffff_ffff * 1000) by (nonlinear_arith)
        requires
            span <= 0xffff_ffff * 1000,
    ;
    let r: u64 = u * span / FRAC;
    assert(r < span) by (nonlinear_arith)
        requires
            r as int == (u * span) as int / 1_000_000int,
            u * span < 1_000_000 * span,
    ;
    r
}

/// Builds the grain that one set of draws decides.
pub fn grain_from_draws(
    profile: &FilmStockProfile,
    params: &RenderParams,
    variation: Option<VariationData>,
    d: &GrainDraws,
) -> (r: Grain)
    requires
        profile.wf(),
        d.wf(),
        params.width > 0,
        params.height > 0,
    ensures
        r == grain_spec(*profile, *params, variation, *d),
        grain_wf(r, params.width as int, params.height as int),
{
    let (cv, ov) = match variation {
        Some(v) => (v.size_variation, v.opacity_variation),
        None => (profile.size_variation, profile.opacity_variation),
    };
    let factor = size_factor(cv, d.mode, d.size);
    Grain {
        x: coord(params.width, d.x),
        y: coord(params.height, d.y),
        size: grain_size(profile.avg_size_nm, factor, params.size_multiplier),
        opacity: grain_opacity(
            profile.opacity_lo,
            profile.opacity_hi,
            ov,
            params.contrast,
            params.exposure_compensation,
            d.opacity,
            d.opacity_jitter,
        ),
        shape_factor: grain_shape(profile.aspect_width, profile.aspect_height, profile.shape, d.shape),
    }
}

/// Every draw of a sequence is well formed.
pub open spec fn draws_wf(draws: Seq<GrainDraws>) -> bool {
    forall|i: int| 0 <= i < draws.len() ==> #[trigger] draws[i].wf()
}

/// Number of base grains that a sequence of draws yields: the target, or
/// fewer when the draws run out.
pub open spec fn base_count(profile: FilmStockProfile, params: RenderParams, n_draws: int) -> int {
    let target = target_of(profile, params);
    if n_draws < target {
        n_draws
    } else {
        target
    }
}

/// The base grains, one per draw, before clustering.
pub open spec fn base_spec(
    profile: FilmStockProfile,
    params: RenderParams,
    variation: Option<VariationData>,
    draws: Seq<GrainDraws>,
) -> Seq<Grain> {
    Seq::new(
        base_count(profile, params, draws.len() as int) as nat,
        |i: int| grain_spec(profile, params, variation, draws[i]),
    )
}

/// Clustering applies when the stock's spatial correlation exceeds 0.1.
pub open spec fn clusters_enabled(profile: FilmStockProfile) -> bool {
    profile.spatial_correlation > 100
}

/// The population that a profile, a request, the grain draws and a cluster
/// plan give.
pub open spec fn generated_spec(
    profile: FilmStockProfile,
    params: RenderParams,
    variation: Option<VariationData>,
    draws: Seq<GrainDraws>,
    plan: Seq<ClusterDraw>,
) -> Seq<Grain> {
    let base = base_spec(profile, params, variation, draws);
    if clusters_enabled(profile) {
        clustered_spec(
            base,
            plan,
            ClusterMode::Category(profile.clustering),
            params.width as int,
            params.height as int,
        )
    } else {
        base
    }
}

proof fn lemma_target_needs_canvas(profile: FilmStockProfile, params: RenderParams)
    ensures
        target_of(profile, params) > 0 ==> params.width > 0 && params.height > 0,
{
    let d = profile.density_per_area as int;
    let w = params.width as int;
    let h = params.height as int;
    let m = params.grain_density as int;
    if w == 0 || h == 0 {
        assert(d * w * h * m == 0) by (nonlinear_arith)
            requires
                w == 0 || h == 0,
        ;
    }
}

/// A heavy-category cluster limit is at most a quarter of the population.
pub proof fn lemma_cluster_limit_bound(n: int, category: ClusteringCategory)
    requires
        n >= 0,
    ensures
        0 <= cluster_limit(n, ClusterMode::Category(category)) * 5 <= 2 * n,
{
    let k = match category {
        ClusteringCategory::Light => 80int,
        ClusteringCategory::Moderate => 150int,
        ClusteringCategory::Heavy => 250int,
    };
    assert(0 <= (n * k / 1000) * 5 <= 2 * n) by (nonlinear_arith)
        requires
            n >= 0,
            0 <= k <= 250,
    ;
}

/// Generates the population that given draws and a given cluster plan
/// decide.
pub fn generate_from_draws(
    profile: &FilmStockProfile,
    params: &RenderParams,
    variation: Option<VariationData>,
    draws: &Vec<GrainDraws>,
    plan: &Vec<ClusterDraw>,
) -> (r: Vec<Grain>)
    requires
        profile.wf(),
        draws_wf(draws@),
        plan_wf(plan@),
        target_of(*profile, *params) * 3 <= usize::MAX,
    ensures
        r@ == generated_spec(*profile, *params, variation, draws@, plan@),
        grains_wf(r@, params.width as int, params.height as int),
        r.len() <= base_count(*profile, *params, draws@.len() as int) + cluster_limit(
            base_count(*profile, *params, draws@.len() as int),
            ClusterMode::Category(profile.clustering),
        ) * 5,
{
    let target = grain_target(profile, params);
    let n: usize = if (draws.len() as u128) < target {
        draws.len()
    } else {
        target as usize
    };
    proof {
        lemma_target_needs_canvas(*profile, *params);
    }
    let mut grains: Vec<Grain> = Vec::new();
    let mut i: usize = 0;
    while i < n
        invariant
            i <= n,
            n == base_count(*profile, *params, draws@.len() as int),
            n > 0 ==> params.width > 0 && params.height > 0,
            n <= draws@.len(),
            profile.wf(),
            draws_wf(draws@),
            grains.len() == i,
            forall|k: int|
                0 <= k < i ==> #[trigger] grains@[k] == grain_spec(
                    *profile,
                    *params,
                    variation,
                    draws@[k],
                ),
            grains_wf(grains@, params.width as int, params.height as int),
        decreases n - i,
    {
        assert(draws@[i as int].wf());
        let g = grain_from_draws(profile, params, variation, &draws[i]);
        grains.push(g);
        i = i + 1;
    }
    assert(grains@ =~= base_spec(*profile, *params, variation, draws@));
    proof {
        lemma_cluster_limit_bound(n as int, profile.clustering);
    }
    if profile.spatial_correlation > 100 {
        apply_cluster_plan(
            &mut grains,
            plan,
            ClusterMode::Category(profile.clustering),
            params.width,
            params.height,
        );
    }
    grains
}

/// Generates a population with fresh random draws. The result is the
/// population that `generated_spec` gives for some well-formed draws, one per
/// target grain, and some well-formed cluster plan that, when clustering is
/// on, has the shape the stock's category asks for. It holds exactly
/// `target_of` grains when clustering is off, and that many plus at most five
/// satellites per cluster when it is on; its first `target_of` grains are the
/// base grains.
pub fn generate_grains_advanced(
    profile: &FilmStockProfile,
    params: &RenderParams,
    variation: Option<VariationData>,
) -> (r: Vec<Grain>)
    requires
        profile.wf(),
        target_of(*profile, *params) * 3 <= usize::MAX,
    ensures
        exists|draws: Seq<GrainDraws>, plan: Seq<ClusterDraw>|
            {
                &&& draws_wf(draws)
                &&& plan_wf(plan)
                &&& clusters_enabled(*profile) ==> plan_fits(
                    plan,
                    target_of(*profile, *params),
                    ClusterMode::Category(profile.clustering),
                )
                &&& draws.len() == target_of(*profile, *params)
                &&& r@ == generated_spec(*profile, *params, variation, draws, plan)
                &&& r@.subrange(0, target_of(*profile, *params)) == base_spec(
                    *profile,
                    *params,
                    variation,
                    draws,
                )
            },
        grains_wf(r@, params.width as int, params.height as int),
        r.len() >= target_of(*profile, *params),
        !clusters_enabled(*profile) ==> r.len() == target_of(*profile, *params),
        r.len() <= target_of(*profile, *params) + cluster_limit(
            target_of(*profile, *params),
            ClusterMode::Category(profile.clustering),
        ) * 5,
{
    let target = grain_target(profile, params) as usize;
    let mut draws: Vec<GrainDraws> = Vec::new();
    let mut i: usize = 0;
    while i < target
        invariant
            i <= target,
            draws.len() == i,
            draws_wf(draws@),
        decreases target - i,
    {
        draws.push(draw_grain());
        i = i + 1;
    }
    let mode = ClusterMode::Category(profile.clustering);
    let plan = if profile.spatial_correlation > 100 {
        draw_cluster_plan(target, mode)
    } else {
        Vec::new()
    };
    let r = generate_from_draws(profile, params, variation, &draws, &plan);
    proof {
        let base = base_spec(*profile, *params, variation, draws@);
        assert(base.len() == target);
        if clusters_enabled(*profile) {
            lemma_cluster_limit_bound(target as int, profile.clustering);
            let used = clusters_used(target as int, plan@.len() as int, mode) as nat;
            lemma_clustered_extend(base, plan@, 0, used, mode, params.width as int, params.height as int);
        } else {
            assert(base.subrange(0, target as int) =~= base);
        }
    }
    r
}

/// Raising the spatial correlation of a heavy-clustering stock from 0.05 to
/// 0.4 strictly increases the grain count for the same draws: at 0.05 the
/// population is exactly the base grains, at 0.4 it also holds the
/// satellites of a plan of the heavy category's shape, provided the first
/// satellite of the first cluster lands on the canvas.
pub proof fn lemma_correlation_adds_grains(
    profile: FilmStockProfile,
    params: RenderParams,
    variation: Option<VariationData>,
    draws: Seq<GrainDraws>,
    plan: Seq<ClusterDraw>,
)
    requires
        profile.wf(),
        profile.clustering == ClusteringCategory::Heavy,
        draws.len() >= target_of(profile, params) >= 4,
        plan_fits(
            plan,
            target_of(profile, params),
            ClusterMode::Category(ClusteringCategory::Heavy),
        ),
        satellite_spec(
            ClusterMode::Category(ClusteringCategory::Heavy),
            base_spec(profile, params, variation, draws)[seed_index(
                plan[0],
                target_of(profile, params),
            )],
            plan[0].satellites@[0],
            params.width as int,
            params.height as int,
        ) is Some,
    ensures
        generated_spec(
            FilmStockProfile { spatial_correlation: 50, ..profile },
            params,
            variation,
            draws,
            plan,
        ).len() == target_of(profile, params),
        generated_spec(
            FilmStockProfile { spatial_correlation: 400, ..profile },
            params,
            variation,
            draws,
            plan,
        ).len() > target_of(profile, params),
{
    let low = FilmStockProfile { spatial_correlation: 50, ..profile };
    let high = FilmStockProfile { spatial_correlation: 400, ..profile };
    let base = base_spec(profile, params, variation, draws);
    assert(base_spec(low, params, variation, draws) =~= base);
    assert(base_spec(high, params, variation, draws) =~= base);
    lemma_heavy_clustering_adds_grains(base, plan, params.width as int, params.height as int);
}

} // verus!
