//! One grain-synthesis request from profile to pixels: generation, the
//! measured effects when a stock has them, and rendering with fallback.

use vstd::prelude::*;
use crate::backend::{render_pixels, GpuGrainRenderer, GpuManager};
use crate::cluster::{clustered_spec, plan_fits, ClusterMode};
use crate::effects::{apply_enhanced_effects, maybe_aged};
use crate::generate::{
    clusters_enabled, draws_wf, generate_grains_advanced, generated_spec, lemma_cluster_limit_bound,
    target_of,
};
use crate::model::{
    plan_wf, ClusterDraw, EnhancedFilmData, FilmStockProfile, Grain, GrainDraws, RenderParams, Rgb,
    VariationData,
};
use crate::raster::{render_spec, RasterSpec};

verus! {

/// A rendered grain layer.
pub struct GrainImage {
    /// RGBA bytes, row by row.
    pub data: Vec<u8>,
    pub width: u32,
    pub height: u32,
    /// Number of grains rendered.
    pub grain_count: usize,
}

/// The rasterizer settings for a request: its canvas, the stock's edge
/// profile and the grain colour.
pub open spec fn raster_of(profile: FilmStockProfile, params: RenderParams, color: Rgb) -> RasterSpec {
    RasterSpec { width: params.width, height: params.height, edge: profile.edge_type, color }
}

/// A population after the measured effects, when the stock has them.
pub open spec fn after_effects(
    gs: Seq<Grain>,
    params: RenderParams,
    enhanced: Option<EnhancedFilmData>,
    plan: Seq<ClusterDraw>,
) -> Seq<Grain> {
    match enhanced {
        None => gs,
        Some(e) => clustered_spec(
            maybe_aged(gs, params, e.aging_effects),
            plan,
            ClusterMode::Fractal(e.clustering_data),
            params.width as int,
            params.height as int,
        ),
    }
}

/// The population of a request for given grain draws, a generation cluster
/// plan and an effects cluster plan.
pub open spec fn population_spec(
    profile: FilmStockProfile,
    params: RenderParams,
    variation: Option<VariationData>,
    enhanced: Option<EnhancedFilmData>,
    draws: Seq<GrainDraws>,
    plan: Seq<ClusterDraw>,
    effects_plan: Seq<ClusterDraw>,
) -> Seq<Grain> {
    after_effects(generated_spec(profile, params, variation, draws, plan), params, enhanced, effects_plan)
}

/// The draws and plans are valid and have the shapes that the stock asks for.
pub open spec fn draws_fit(
    profile: FilmStockProfile,
    params: RenderParams,
    variation: Option<VariationData>,
    enhanced: Option<EnhancedFilmData>,
    draws: Seq<GrainDraws>,
    plan: Seq<ClusterDraw>,
    effects_plan: Seq<ClusterDraw>,
) -> bool {
    &&& draws_wf(draws)
    &&& draws.len() == target_of(profile, params)
    &&& plan_wf(plan)
    &&& clusters_enabled(profile) ==> plan_fits(
        plan,
        target_of(profile, params),
        ClusterMode::Category(profile.clustering),
    )
    &&& plan_wf(effects_plan)
    &&& enhanced is Some ==> plan_fits(
        effects_plan,
        generated_spec(profile, params, variation, draws, plan).len() as int,
        ClusterMode::Fractal(enhanced->Some_0.clustering_data),
    )
}

/// Synthesizes one grain layer. The layer has the requested size and holds
/// at least `target_of` grains, exactly that many when the stock neither
/// clusters nor has measured effects. Without an accelerated backend its
/// bytes are the CPU rendering of `population_spec` for some draws and plans
/// that fit the stock, and the grain count is that population's size.
pub fn generate_grain<R: GpuGrainRenderer>(
    profile: &FilmStockProfile,
    params: &RenderParams,
    variation: Option<VariationData>,
    enhanced: Option<EnhancedFilmData>,
    color: Rgb,
    manager: Option<&GpuManager<R>>,
) -> (r: GrainImage)
    requires
        profile.wf(),
        enhanced is Some ==> enhanced->Some_0.wf(),
        target_of(*profile, *params) * 40 <= usize::MAX,
        params.width * params.height * 4 <= usize::MAX,
    ensures
        r.width == params.width,
        r.height == params.height,
        r.data.len() == params.width * params.height * 4,
        r.grain_count >= target_of(*profile, *params),
        (enhanced is None && !clusters_enabled(*profile)) ==> r.grain_count == target_of(
            *profile,
            *params,
        ),
        manager is None ==> exists|
            draws: Seq<GrainDraws>,
            plan: Seq<ClusterDraw>,
            effects_plan: Seq<ClusterDraw>,
        |
            {
                &&& draws_fit(*profile, *params, variation, enhanced, draws, plan, effects_plan)
                &&& r.grain_count == population_spec(
                    *profile,
                    *params,
                    variation,
                    enhanced,
                    draws,
                    plan,
                    effects_plan,
                ).len()
                &&& r.data@ == render_spec(
                    #[trigger] population_spec(
                        *profile,
                        *params,
                        variation,
                        enhanced,
                        draws,
                        plan,
                        effects_plan,
                    ),
                    raster_of(*profile, *params, color),
                )
            },
{
    let mut grains = generate_grains_advanced(profile, params, variation);
    let ghost picked = choose|draws: Seq<GrainDraws>, plan: Seq<ClusterDraw>|
        {
            &&& draws_wf(draws)
            &&& plan_wf(plan)
            &&& clusters_enabled(*profile) ==> plan_fits(
                plan,
                target_of(*profile, *params),
                ClusterMode::Category(profile.clustering),
            )
            &&& draws.len() == target_of(*profile, *params)
            &&& grains@ == generated_spec(*profile, *params, variation, draws, plan)
            &&& grains@.subrange(0, target_of(*profile, *params)) == crate::generate::base_spec(
                *profile,
                *params,
                variation,
                draws,
            )
        };
    let ghost generated = grains@;
    proof {
        lemma_cluster_limit_bound(target_of(*profile, *params), profile.clustering);
    }
    let ghost mut effects_plan: Seq<ClusterDraw> = Seq::empty();
    match enhanced {
        Some(e) => {
            apply_enhanced_effects(&mut grains, params, &e);
            proof {
                effects_plan = choose|plan: Seq<ClusterDraw>|
                    plan_wf(plan) && plan_fits(
                        plan,
                        generated.len() as int,
                        ClusterMode::Fractal(e.clustering_data),
                    ) && grains@ == clustered_spec(
                        maybe_aged(generated, *params, e.aging_effects),
                        plan,
                        ClusterMode::Fractal(e.clustering_data),
                        params.width as int,
                        params.height as int,
                    );
            }
        },
        None => {},
    }
    proof {
        assert(grains@ == population_spec(
            *profile,
            *params,
            variation,
            enhanced,
            picked.0,
            picked.1,
            effects_plan,
        ));
        assert(draws_fit(*profile, *params, variation, enhanced, picked.0, picked.1, effects_plan));
    }
    let rs = RasterSpec { width: params.width, height: params.height, edge: profile.edge_type, color };
    let data = render_pixels(manager, &grains, &rs);
    GrainImage { data, width: params.width, height: params.height, grain_count: grains.len() }
}

} // verus!
