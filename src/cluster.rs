//! Spatial clustering: seeds drawn from the population spawn satellite
//! grains around themselves, either by the stock's clustering category or by
//! its measured fractal statistics.

use vstd::prelude::*;
use crate::fixed::{
    clamp_spec, clamp_wide, fx_root_exact, fx_root_spec, lerp, lerp_spec, polar_offset,
    polar_offset_spec, FRAC,
};
use crate::model::{
    grain_wf, grains_wf, plan_wf, ClusterDraw, ClusteringCategory, ClusteringData, Grain,
    SatelliteDraw, MAX_OPACITY, MAX_SHAPE, MAX_SIZE, MIN_OPACITY, MIN_SHAPE, MIN_SIZE,
};
use crate::random::{draw_fraction, draw_satellite};

verus! {

/// Which clustering rule applies.
#[derive(Clone, Copy, Debug, PartialEq, Eq)]
pub enum ClusterMode {
    /// Seeds and satellites counted by the stock's clustering category.
    Category(ClusteringCategory),
    /// Seeds and satellites derived from measured fractal statistics.
    Fractal(ClusteringData),
}

/// The mode's parameters are in range.
pub open spec fn mode_wf(mode: ClusterMode) -> bool {
    match mode {
        ClusterMode::Category(_) => true,
        ClusterMode::Fractal(c) => c.wf(),
    }
}

/// Share of grains that seed a cluster, permille: light 8%, moderate 15%,
/// heavy 25%.
pub open spec fn intensity(category: ClusteringCategory) -> int {
    match category {
        ClusteringCategory::Light => 80,
        ClusteringCategory::Moderate => 150,
        ClusteringCategory::Heavy => 250,
    }
}

/// How many clusters a population of `n` grains gets.
pub open spec fn cluster_limit(n: int, mode: ClusterMode) -> int {
    match mode {
        ClusterMode::Category(c) => n * intensity(c) / 1000,
        ClusterMode::Fractal(f) => n * f.cluster_probability / 1000,
    }
}

/// How many satellites a cluster gets for its count fraction: heavy 3 to 5,
/// moderate 2 or 3, light 2; six per unit of fractal dimension above one.
pub open spec fn satellite_count(mode: ClusterMode, count: int) -> int {
    match mode {
        ClusterMode::Category(ClusteringCategory::Heavy) => 3 + count * 3 / (FRAC as int),
        ClusterMode::Category(ClusteringCategory::Moderate) => 2 + count * 2 / (FRAC as int),
        ClusterMode::Category(ClusteringCategory::Light) => 2,
        ClusterMode::Fractal(f) => if f.fractal_dimension >= 1000 {
            (f.fractal_dimension - 1000) * 6 / 1000
        } else {
            0
        },
    }
}

/// Most satellites one cluster can get.
pub open spec fn max_satellites(mode: ClusterMode) -> int {
    match mode {
        ClusterMode::Category(_) => 5,
        ClusterMode::Fractal(_) => 12,
    }
}

/// `v` scaled by a factor drawn from `[lo, hi]` permille.
pub open spec fn jitter_spec(v: int, lo: int, hi: int, u: int) -> int {
    v * lerp_spec(lo, hi, u) / 1000
}

/// Where a satellite at distance `dist` from `center` in the direction of
/// `angle` lands, if it lands on the canvas.
pub open spec fn place_spec(center: Grain, dist: int, angle: int, width: int, height: int) -> Option<
    (int, int),
> {
    let (ox, oy) = polar_offset_spec(dist, angle);
    let x = center.x + ox;
    let y = center.y + oy;
    if 0 <= x < width * 1000 && 0 <= y < height * 1000 {
        Some((x, y))
    } else {
        None
    }
}

/// Exponent of the fractal distance law in tenths: the fractal dimension
/// rounded down to tenths, at least one tenth.
pub open spec fn root_tenths(dimension: int) -> int {
    if dimension / 100 < 1 {
        1
    } else {
        dimension / 100
    }
}

/// Distance of a satellite from its seed, in thousandths of a pixel.
pub open spec fn satellite_distance(mode: ClusterMode, center: Grain, u: int) -> int {
    match mode {
        ClusterMode::Category(_) => lerp_spec(500, 2500, u) * center.size / 1000,
        ClusterMode::Fractal(f) => {
            let spread = center.size * (2000 - f.spatial_correlation) * 3 / 1000;
            fx_root_spec(u * 1000 / (FRAC as int), root_tenths(f.fractal_dimension as int) as nat)
                * spread / 1000
        },
    }
}

/// Size of a satellite: the seed's, jittered by 0.8 to 1.2, or in the
/// fractal rule by up to half the missing correlation either way.
pub open spec fn satellite_size(mode: ClusterMode, center: Grain, u: int) -> int {
    match mode {
        ClusterMode::Category(_) => clamp_spec(
            jitter_spec(center.size as int, 800, 1200, u),
            MIN_SIZE as int,
            MAX_SIZE as int,
        ),
        ClusterMode::Fractal(f) => {
            let loose = 1000 - f.spatial_correlation;
            let scale = FRAC * 1000 + u * loose - (FRAC / 2) * loose;
            clamp_spec(center.size * scale / (FRAC * 1000), MIN_SIZE as int, MAX_SIZE as int)
        },
    }
}

/// Opacity of a satellite: the seed's, jittered by 0.9 to 1.1, or in the
/// fractal rule by up to a quarter of the missing correlation either way.
pub open spec fn satellite_opacity(mode: ClusterMode, center: Grain, u: int) -> int {
    match mode {
        ClusterMode::Category(_) => clamp_spec(
            jitter_spec(center.opacity as int, 900, 1100, u),
            MIN_OPACITY as int,
            MAX_OPACITY as int,
        ),
        ClusterMode::Fractal(f) => {
            let loose = 1000 - f.spatial_correlation;
            let scale = 2 * FRAC * 1000 + u * loose - (FRAC / 2) * loose;
            clamp_spec(
                center.opacity * scale / (2 * FRAC * 1000),
                MIN_OPACITY as int,
                MAX_OPACITY as int,
            )
        },
    }
}

/// The satellite that one draw gives around `center`, if it lands on the
/// canvas.
pub open spec fn satellite_spec(
    mode: ClusterMode,
    center: Grain,
    d: SatelliteDraw,
    width: int,
    height: int,
) -> Option<Grain> {
    match place_spec(
        center,
        satellite_distance(mode, center, d.distance as int),
        d.angle as int,
        width,
        height,
    ) {
        None => None,
        Some((x, y)) => Some(
            Grain {
                x: x as u64,
                y: y as u64,
                size: satellite_size(mode, center, d.size as int) as u64,
                opacity: satellite_opacity(mode, center, d.opacity as int) as u64,
                shape_factor: clamp_spec(
                    jitter_spec(center.shape_factor as int, 900, 1100, d.shape as int),
                    MIN_SHAPE as int,
                    MAX_SHAPE as int,
                ) as u64,
            },
        ),
    }
}

/// `g` with the satellites of the first `j` draws around `center` appended.
pub open spec fn satellites_spec(
    g: Seq<Grain>,
    center: Grain,
    sats: Seq<SatelliteDraw>,
    j: nat,
    mode: ClusterMode,
    width: int,
    height: int,
) -> Seq<Grain>
    decreases j,
{
    if j == 0 {
        g
    } else {
        let prev = satellites_spec(g, center, sats, (j - 1) as nat, mode, width, height);
        match satellite_spec(mode, center, sats[j - 1], width, height) {
            Some(s) => prev.push(s),
            None => prev,
        }
    }
}

/// Index of the seed grain that a cluster draw picks among `n` grains.
pub open spec fn seed_index(cd: ClusterDraw, n: int) -> int {
    cd.seed * n / (FRAC as int)
}

/// Number of satellites that a cluster draw spawns.
pub open spec fn spawn_count(mode: ClusterMode, cd: ClusterDraw) -> int {
    let k = satellite_count(mode, cd.count as int);
    if k < cd.satellites@.len() {
        k
    } else {
        cd.satellites@.len() as int
    }
}

/// `g` after one cluster.
pub open spec fn cluster_step_spec(
    g: Seq<Grain>,
    cd: ClusterDraw,
    mode: ClusterMode,
    width: int,
    height: int,
) -> Seq<Grain> {
    if g.len() == 0 {
        g
    } else {
        satellites_spec(
            g,
            g[seed_index(cd, g.len() as int)],
            cd.satellites@,
            spawn_count(mode, cd) as nat,
            mode,
            width,
            height,
        )
    }
}

/// `g` after the first `c` clusters of a plan.
pub open spec fn clustered_upto(
    g: Seq<Grain>,
    plan: Seq<ClusterDraw>,
    c: nat,
    mode: ClusterMode,
    width: int,
    height: int,
) -> Seq<Grain>
    decreases c,
{
    if c == 0 {
        g
    } else {
        cluster_step_spec(
            clustered_upto(g, plan, (c - 1) as nat, mode, width, height),
            plan[c - 1],
            mode,
            width,
            height,
        )
    }
}

/// Number of clusters that a plan contributes to a population of `n`.
pub open spec fn clusters_used(n: int, plan_len: int, mode: ClusterMode) -> int {
    let limit = cluster_limit(n, mode);
    if plan_len < limit {
        plan_len
    } else {
        limit
    }
}

/// `g` after clustering by a plan.
pub open spec fn clustered_spec(
    g: Seq<Grain>,
    plan: Seq<ClusterDraw>,
    mode: ClusterMode,
    width: int,
    height: int,
) -> Seq<Grain> {
    clustered_upto(
        g,
        plan,
        clusters_used(g.len() as int, plan.len() as int, mode) as nat,
        mode,
        width,
        height,
    )
}

fn cluster_limit_exec(n: usize, mode: ClusterMode) -> (r: usize)
    requires
        mode_wf(mode),
    ensures
        r == cluster_limit(n as int, mode),
        r <= n,
{
    let per: u128 = match mode {
        ClusterMode::Category(ClusteringCategory::Light) => 80,
        ClusterMode::Category(ClusteringCategory::Moderate) => 150,
        ClusterMode::Category(ClusteringCategory::Heavy) => 250,
        ClusterMode::Fractal(f) => f.cluster_probability as u128,
    };
    assert(n * per <= n * 1000) by (nonlinear_arith)
        requires
            per <= 1000,
    ;
    assert(n * per <= 0xffff_ffff_ffff_ffff * 1000) by (nonlinear_arith)
        requires
            n <= 0xffff_ffff_ffff_ffff,
            per <= 1000,
    ;
    let r = (n as u128) * per / 1000;
    assert(r <= n) by (nonlinear_arith)
        requires
            r as int == (n * per) as int / 1000int,
            n * per <= n * 1000,
    ;
    r as usize
}

fn satellite_count_exec(mode: ClusterMode, count: u64) -> (r: usize)
    requires
        mode_wf(mode),
        count < FRAC,
    ensures
        r == satellite_count(mode, count as int),
        r <= max_satellites(mode),
{
    match mode {
        ClusterMode::Category(ClusteringCategory::Heavy) => {
            assert(count * 3 / (FRAC as int) < 3) by (nonlinear_arith)
                requires
                    count < FRAC,
            ;
            3 + (count * 3 / FRAC) as usize
        },
        ClusterMode::Category(ClusteringCategory::Moderate) => {
            assert(count * 2 / (FRAC as int) < 2) by (nonlinear_arith)
                requires
                    count < FRAC,
            ;
            2 + (count * 2 / FRAC) as usize
        },
        ClusterMode::Category(ClusteringCategory::Light) => 2,
        ClusterMode::Fractal(f) => {
            if f.fractal_dimension >= 1000 {
                ((f.fractal_dimension - 1000) * 6 / 1000) as usize
            } else {
                0
            }
        },
    }
}

fn jitter(v: u64, lo: i64, hi: i64, u: u64) -> (r: u64)
    requires
        v <= MAX_SHAPE + MAX_SIZE,
        0 <= lo <= hi <= 1200,
        u < FRAC,
    ensures
        r == jitter_spec(v as int, lo as int, hi as int, u as int),
        r <= v * 2,
{
    let f = lerp(lo, hi, u) as u64;
    assert(v * f <= v * 1200) by (nonlinear_arith)
        requires
            f <= 1200,
    ;
    assert(v * f / 1000 <= v * 2) by (nonlinear_arith)
        requires
            v * f <= v * 1200,
    ;
    v * f / 1000
}

fn place(center: &Grain, dist: u64, angle: u64, width: u32, height: u32) -> (r: Option<(u64, u64)>)
    requires
        dist <= 0x1_0000_0000,
        angle < FRAC,
        center.x < 0x1_0000_0000_0000,
        center.y < 0x1_0000_0000_0000,
    ensures
        match place_spec(*center, dist as int, angle as int, width as int, height as int) {
            None => r.is_none(),
            Some((x, y)) => r == Some((x as u64, y as u64)),
        },
        r.is_some() ==> r.unwrap().0 < width * 1000 && r.unwrap().1 < height * 1000,
{
    let (ox, oy) = polar_offset(dist, angle);
    let x: i64 = center.x as i64 + ox;
    let y: i64 = center.y as i64 + oy;
    let w: i64 = width as i64 * 1000;
    let h: i64 = height as i64 * 1000;
    if 0 <= x && x < w && 0 <= y && y < h {
        Some((x as u64, y as u64))
    } else {
        None
    }
}

fn satellite_distance_exec(mode: ClusterMode, center: &Grain, u: u64) -> (r: u64)
    requires
        mode_wf(mode),
        center.size <= MAX_SIZE,
        u < FRAC,
    ensures
        r == satellite_distance(mode, *center, u as int),
        r <= 6 * MAX_SIZE,
{
    match mode {
        ClusterMode::Category(_) => {
            let f = lerp(500, 2500, u) as u64;
            assert(f * center.size <= 2500 * MAX_SIZE) by (nonlinear_arith)
                requires
                    f <= 2500,
                    center.size <= MAX_SIZE,
            ;
            f * center.size / 1000
        },
        ClusterMode::Fractal(c) => {
            let loose: u64 = 2000 - c.spatial_correlation as u64;
            assert(center.size * loose * 3 <= MAX_SIZE * 2000 * 3) by (nonlinear_arith)
                requires
                    center.size <= MAX_SIZE,
                    loose <= 2000,
            ;
            let spread: u64 = center.size * loose * 3 / 1000;
            let tenths: u64 = if c.fractal_dimension / 100 < 1 {
                1
            } else {
                (c.fractal_dimension / 100) as u64
            };
            assert(u * 1000 / (FRAC as int) <= 1000) by (nonlinear_arith)
                requires
                    u < FRAC,
            ;
            let root = fx_root_exact(u * 1000 / FRAC, tenths);
            assert(root * spread <= 1000 * (6 * MAX_SIZE)) by (nonlinear_arith)
                requires
                    root <= 1000,
                    spread <= 6 * MAX_SIZE,
            ;
            root * spread / 1000
        },
    }
}

fn satellite_size_exec(mode: ClusterMode, center: &Grain, u: u64) -> (r: u64)
    requires
        mode_wf(mode),
        center.size <= MAX_SIZE,
        u < FRAC,
    ensures
        r == satellite_size(mode, *center, u as int),
        MIN_SIZE <= r <= MAX_SIZE,
{
    match mode {
        ClusterMode::Category(_) => clamp_wide(
            jitter(center.size, 800, 1200, u) as i128,
            MIN_SIZE,
            MAX_SIZE,
        ),
        ClusterMode::Fractal(c) => {
            let loose: u64 = 1000 - c.spatial_correlation as u64;
            assert(u * loose <= FRAC * 1000 && (FRAC / 2) * loose <= FRAC * 1000)
                by (nonlinear_arith)
                requires
                    u < FRAC,
                    loose <= 1000,
            ;
            let scale: u64 = FRAC * 1000 + u * loose - (FRAC / 2) * loose;
            assert(center.size * scale <= MAX_SIZE * (2 * FRAC * 1000)) by (nonlinear_arith)
                requires
                    center.size <= MAX_SIZE,
                    scale <= 2 * FRAC * 1000,
            ;
            clamp_wide((center.size * scale / (FRAC * 1000)) as i128, MIN_SIZE, MAX_SIZE)
        },
    }
}

fn satellite_opacity_exec(mode: ClusterMode, center: &Grain, u: u64) -> (r: u64)
    requires
        mode_wf(mode),
        center.opacity <= MAX_OPACITY,
        u < FRAC,
    ensures
        r == satellite_opacity(mode, *center, u as int),
        MIN_OPACITY <= r <= MAX_OPACITY,
{
    match mode {
        ClusterMode::Category(_) => clamp_wide(
            jitter(center.opacity, 900, 1100, u) as i128,
            MIN_OPACITY,
            MAX_OPACITY,
        ),
        ClusterMode::Fractal(c) => {
            let loose: u64 = 1000 - c.spatial_correlation as u64;
            assert(u * loose <= FRAC * 1000 && (FRAC / 2) * loose <= FRAC * 1000)
                by (nonlinear_arith)
                requires
                    u < FRAC,
                    loose <= 1000,
            ;
            let scale: u64 = 2 * FRAC * 1000 + u * loose - (FRAC / 2) * loose;
            assert(center.opacity * scale <= MAX_OPACITY * (3 * FRAC * 1000)) by (nonlinear_arith)
                requires
                    center.opacity <= MAX_OPACITY,
                    scale <= 3 * FRAC * 1000,
            ;
            clamp_wide(
                (center.opacity * scale / (2 * FRAC * 1000)) as i128,
                MIN_OPACITY,
                MAX_OPACITY,
            )
        },
    }
}

/// The satellite that one draw gives around `center`.
pub fn satellite(mode: ClusterMode, center: &Grain, d: &SatelliteDraw, width: u32, height: u32) -> (r:
    Option<Grain>)
    requires
        mode_wf(mode),
        d.wf(),
        grain_wf(*center, width as int, height as int),
    ensures
        r == satellite_spec(mode, *center, *d, width as int, height as int),
        r.is_some() ==> grain_wf(r.unwrap(), width as int, height as int),
{
    let dist = satellite_distance_exec(mode, center, d.distance);
    match place(center, dist, d.angle, width, height) {
        None => None,
        Some((x, y)) => {
            let shape = clamp_wide(
                jitter(center.shape_factor, 900, 1100, d.shape) as i128,
                MIN_SHAPE,
                MAX_SHAPE,
            );
            Some(
                Grain {
                    x,
                    y,
                    size: satellite_size_exec(mode, center, d.size),
                    opacity: satellite_opacity_exec(mode, center, d.opacity),
                    shape_factor: shape,
                },
            )
        },
    }
}

/// Appending satellites only adds grains at the end.
pub proof fn lemma_satellites_extend(
    g: Seq<Grain>,
    center: Grain,
    sats: Seq<SatelliteDraw>,
    i: nat,
    j: nat,
    mode: ClusterMode,
    width: int,
    height: int,
)
    requires
        i <= j,
    ensures
        satellites_spec(g, center, sats, i, mode, width, height).len() <= satellites_spec(
            g,
            center,
            sats,
            j,
            mode,
            width,
            height,
        ).len(),
        satellites_spec(g, center, sats, j, mode, width, height).len() <= g.len() + j,
        g.len() <= satellites_spec(g, center, sats, j, mode, width, height).len(),
        satellites_spec(g, center, sats, j, mode, width, height).subrange(0, g.len() as int)
            == g,
    decreases j,
{
    if j > 0 {
        if i < j {
            lemma_satellites_extend(g, center, sats, i, (j - 1) as nat, mode, width, height);
        } else {
            lemma_satellites_extend(g, center, sats, (j - 1) as nat, (j - 1) as nat, mode, width, height);
        }
        let prev = satellites_spec(g, center, sats, (j - 1) as nat, mode, width, height);
        assert(prev.subrange(0, g.len() as int) == g);
        match satellite_spec(mode, center, sats[j - 1], width, height) {
            Some(s) => {
                assert(prev.push(s).subrange(0, g.len() as int) =~= prev.subrange(
                    0,
                    g.len() as int,
                ));
            },
            None => {},
        }
    } else {
        assert(g.subrange(0, g.len() as int) =~= g);
    }
}

/// Clustering only adds grains at the end, and a plan of `c` clusters grows
/// the population at least as much as its first `i` clusters do.
pub proof fn lemma_clustered_extend(
    g: Seq<Grain>,
    plan: Seq<ClusterDraw>,
    i: nat,
    c: nat,
    mode: ClusterMode,
    width: int,
    height: int,
)
    requires
        i <= c,
    ensures
        clustered_upto(g, plan, i, mode, width, height).len() <= clustered_upto(
            g,
            plan,
            c,
            mode,
            width,
            height,
        ).len(),
        g.len() <= clustered_upto(g, plan, c, mode, width, height).len(),
        clustered_upto(g, plan, c, mode, width, height).subrange(0, g.len() as int) == g,
    decreases c,
{
    if c > 0 {
        if i < c {
            lemma_clustered_extend(g, plan, i, (c - 1) as nat, mode, width, height);
        } else {
            lemma_clustered_extend(g, plan, (c - 1) as nat, (c - 1) as nat, mode, width, height);
        }
        let prev = clustered_upto(g, plan, (c - 1) as nat, mode, width, height);
        let cd = plan[c - 1];
        if prev.len() > 0 {
            let k = spawn_count(mode, cd) as nat;
            let center = prev[seed_index(cd, prev.len() as int)];
            lemma_satellites_extend(prev, center, cd.satellites@, 0, k, mode, width, height);
            let next = clustered_upto(g, plan, c, mode, width, height);
            assert(next.subrange(0, prev.len() as int) == prev);
            assert(next.subrange(0, g.len() as int) =~= prev.subrange(0, g.len() as int));
        }
    } else {
        assert(g.subrange(0, g.len() as int) =~= g);
    }
}

/// Heavy clustering of four or more grains by a plan of the category's shape
/// strictly adds grains, provided the first satellite of the first cluster
/// lands on the canvas.
pub proof fn lemma_heavy_clustering_adds_grains(
    g: Seq<Grain>,
    plan: Seq<ClusterDraw>,
    width: int,
    height: int,
)
    requires
        g.len() >= 4,
        plan_fits(plan, g.len() as int, ClusterMode::Category(ClusteringCategory::Heavy)),
        satellite_spec(
            ClusterMode::Category(ClusteringCategory::Heavy),
            g[seed_index(plan[0], g.len() as int)],
            plan[0].satellites@[0],
            width,
            height,
        ) is Some,
    ensures
        clustered_spec(g, plan, ClusterMode::Category(ClusteringCategory::Heavy), width, height).len()
            > g.len(),
{
    let mode = ClusterMode::Category(ClusteringCategory::Heavy);
    let n = g.len() as int;
    assert(n * 250 / 1000 >= 1) by (nonlinear_arith)
        requires
            n >= 4,
    ;
    let used = clusters_used(n, plan.len() as int, mode);
    assert(used >= 1);
    lemma_clustered_extend(g, plan, 1, used as nat, mode, width, height);
    let cd = plan[0];
    assert(clustered_upto(g, plan, 0, mode, width, height) == g);
    let center = g[seed_index(cd, n)];
    let k = spawn_count(mode, cd);
    assert(satellite_count(mode, cd.count as int) >= 3);
    assert(cd.satellites@.len() >= 3);
    assert(k >= 1);
    lemma_satellites_extend(g, center, cd.satellites@, 1, k as nat, mode, width, height);
    assert(satellites_spec(g, center, cd.satellites@, 0, mode, width, height) == g);
    assert(satellites_spec(g, center, cd.satellites@, 1, mode, width, height).len() == n + 1);
}

/// Applies a plan of clusters to a population: each cluster picks a seed
/// among the grains present so far and appends those of its satellites that
/// land on the canvas.
pub fn apply_cluster_plan(
    grains: &mut Vec<Grain>,
    plan: &Vec<ClusterDraw>,
    mode: ClusterMode,
    width: u32,
    height: u32,
)
    requires
        grains_wf(old(grains)@, width as int, height as int),
        plan_wf(plan@),
        mode_wf(mode),
        old(grains).len() + cluster_limit(old(grains).len() as int, mode) * max_satellites(mode)
            <= usize::MAX,
    ensures
        final(grains)@ == clustered_spec(old(grains)@, plan@, mode, width as int, height as int),
        grains_wf(final(grains)@, width as int, height as int),
        final(grains).len() >= old(grains).len(),
        final(grains).len() <= old(grains).len() + cluster_limit(old(grains).len() as int, mode)
            * max_satellites(mode),
        final(grains)@.subrange(0, old(grains).len() as int) == old(grains)@,
{
    let ghost start = grains@;
    let n = grains.len();
    let limit = cluster_limit_exec(n, mode);
    let used = if plan.len() < limit {
        plan.len()
    } else {
        limit
    };
    let ghost maxs = max_satellites(mode);
    let mut c: usize = 0;
    while c < used
        invariant
            c <= used,
            used == clusters_used(n as int, plan@.len() as int, mode),
            used <= limit,
            limit == cluster_limit(n as int, mode),
            n == start.len(),
            maxs == max_satellites(mode),
            n + limit * maxs <= usize::MAX,
            plan_wf(plan@),
            mode_wf(mode),
            grains@ == clustered_upto(start, plan@, c as nat, mode, width as int, height as int),
            grains_wf(grains@, width as int, height as int),
            n <= grains.len() <= n + c * maxs,
        decreases used - c,
    {
        let ghost before = grains@;
        let cd = &plan[c];
        assert(cd.wf());
        assert(n + (c + 1) * maxs <= usize::MAX) by (nonlinear_arith)
            requires
                c + 1 <= limit,
                n + limit * maxs <= usize::MAX,
                maxs >= 0,
        ;
        if grains.len() > 0 {
            let len = grains.len();
            assert(cd.seed * len < FRAC * len) by (nonlinear_arith)
                requires
                    cd.seed < FRAC,
                    len > 0,
            ;
            let idx = ((cd.seed as u128) * (len as u128) / (FRAC as u128)) as usize;
            assert(idx < len) by (nonlinear_arith)
                requires
                    idx as int == (cd.seed * len) as int / (FRAC as int),
                    cd.seed * len < FRAC * len,
            ;
            let center = grains[idx];
            assert(grain_wf(center, width as int, height as int));
            let want = satellite_count_exec(mode, cd.count);
            let k = if want < cd.satellites.len() {
                want
            } else {
                cd.satellites.len()
            };
            let mut j: usize = 0;
            while j < k
                invariant
                    j <= k,
                    k == spawn_count(mode, *cd),
                    k <= maxs,
                    cd.wf(),
                    mode_wf(mode),
                    grain_wf(center, width as int, height as int),
                    grains@ == satellites_spec(
                        before,
                        center,
                        cd.satellites@,
                        j as nat,
                        mode,
                        width as int,
                        height as int,
                    ),
                    grains_wf(grains@, width as int, height as int),
                    grains.len() <= before.len() + j,
                    before.len() <= n + c * maxs,
                    n + (c + 1) * maxs <= usize::MAX,
                decreases k - j,
            {
                assert(cd.satellites@[j as int].wf());
                let s = satellite(mode, &center, &cd.satellites[j], width, height);
                match s {
                    Some(sat) => {
                        grains.push(sat);
                    },
                    None => {},
                }
                j = j + 1;
            }
            assert(grains.len() <= n + (c + 1) * maxs) by (nonlinear_arith)
                requires
                    grains.len() <= before.len() + k,
                    before.len() <= n + c * maxs,
                    k <= maxs,
            ;
        }
        proof {
            lemma_clustered_extend(start, plan@, c as nat, (c + 1) as nat, mode, width as int, height as int);
        }
        c = c + 1;
    }
    proof {
        lemma_clustered_extend(start, plan@, 0, used as nat, mode, width as int, height as int);
        assert(used * maxs <= limit * maxs) by (nonlinear_arith)
            requires
                used <= limit,
                maxs >= 0,
        ;
    }
}

/// A plan has the shape that the mode asks for on `n` grains: as many
/// clusters as the mode's cluster limit, each with as many satellite draws as
/// its count fraction gives.
pub open spec fn plan_fits(plan: Seq<ClusterDraw>, n: int, mode: ClusterMode) -> bool {
    &&& plan.len() == cluster_limit(n, mode)
    &&& forall|c: int|
        0 <= c < plan.len() ==> #[trigger] plan[c].satellites@.len() == satellite_count(
            mode,
            plan[c].count as int,
        )
}

/// Draws a fresh plan of `cluster_limit(n, mode)` clusters, each with as
/// many satellite draws as its count fraction asks for.
pub fn draw_cluster_plan(n: usize, mode: ClusterMode) -> (r: Vec<ClusterDraw>)
    requires
        mode_wf(mode),
    ensures
        plan_wf(r@),
        plan_fits(r@, n as int, mode),
{
    let limit = cluster_limit_exec(n, mode);
    let mut plan: Vec<ClusterDraw> = Vec::new();
    let mut c: usize = 0;
    while c < limit
        invariant
            c <= limit,
            plan.len() == c,
            plan_wf(plan@),
            mode_wf(mode),
            forall|i: int|
                0 <= i < plan@.len() ==> #[trigger] plan@[i].satellites@.len() == satellite_count(
                    mode,
                    plan@[i].count as int,
                ),
        decreases limit - c,
    {
        let seed = draw_fraction();
        let count = draw_fraction();
        let k = satellite_count_exec(mode, count);
        let mut satellites: Vec<SatelliteDraw> = Vec::new();
        let mut j: usize = 0;
        while j < k
            invariant
                j <= k,
                satellites.len() == j,
                forall|i: int| 0 <= i < satellites@.len() ==> #[trigger] satellites@[i].wf(),
            decreases k - j,
        {
            satellites.push(draw_satellite());
            j = j + 1;
        }
        plan.push(ClusterDraw { seed, count, satellites });
        c = c + 1;
    }
    plan
}

/// Clusters a population by its stock's clustering category, with fresh
/// random draws: the result is `clustered_spec` of the population for some
/// well-formed plan with one cluster per seed that the category asks for and
/// the category's number of satellites in each.
pub fn apply_enhanced_clustering(
    grains: &mut Vec<Grain>,
    width: u32,
    height: u32,
    category: ClusteringCategory,
)
    requires
        grains_wf(old(grains)@, width as int, height as int),
        old(grains).len() + cluster_limit(old(grains).len() as int, ClusterMode::Category(category))
            * 5 <= usize::MAX,
    ensures
        exists|plan: Seq<ClusterDraw>|
            plan_wf(plan) && plan_fits(
                plan,
                old(grains).len() as int,
                ClusterMode::Category(category),
            ) && final(grains)@ == clustered_spec(
                old(grains)@,
                plan,
                ClusterMode::Category(category),
                width as int,
                height as int,
            ),
        grains_wf(final(grains)@, width as int, height as int),
        final(grains).len() >= old(grains).len(),
        final(grains).len() <= old(grains).len() + cluster_limit(
            old(grains).len() as int,
            ClusterMode::Category(category),
        ) * 5,
        final(grains)@.subrange(0, old(grains).len() as int) == old(grains)@,
{
    let mode = ClusterMode::Category(category);
    let plan = draw_cluster_plan(grains.len(), mode);
    apply_cluster_plan(grains, &plan, mode, width, height);
}

/// Clusters a population by measured fractal statistics, with fresh random
/// draws: the result is `clustered_spec` of the population for some
/// well-formed plan with one cluster per seed that the cluster probability
/// asks for and the satellites that the fractal dimension gives each.
pub fn apply_enhanced_clustering_realistic(
    grains: &mut Vec<Grain>,
    width: u32,
    height: u32,
    clustering: &ClusteringData,
)
    requires
        clustering.wf(),
        grains_wf(old(grains)@, width as int, height as int),
        old(grains).len() + cluster_limit(old(grains).len() as int, ClusterMode::Fractal(*clustering))
            * 12 <= usize::MAX,
    ensures
        exists|plan: Seq<ClusterDraw>|
            plan_wf(plan) && plan_fits(
                plan,
                old(grains).len() as int,
                ClusterMode::Fractal(*clustering),
            ) && final(grains)@ == clustered_spec(
                old(grains)@,
                plan,
                ClusterMode::Fractal(*clustering),
                width as int,
                height as int,
            ),
        grains_wf(final(grains)@, width as int, height as int),
        final(grains).len() >= old(grains).len(),
        final(grains).len() <= old(grains).len() + cluster_limit(
            old(grains).len() as int,
            ClusterMode::Fractal(*clustering),
        ) * 12,
        final(grains)@.subrange(0, old(grains).len() as int) == old(grains)@,
{
    let mode = ClusterMode::Fractal(*clustering);
    let plan = draw_cluster_plan(grains.len(), mode);
    apply_cluster_plan(grains, &plan, mode, width, height);
}

} // verus!
