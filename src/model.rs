//! The data the engine works on: film-stock profiles, render requests, grains
//! and the uniform fractions that drive the random choices.

use vstd::prelude::*;
use crate::fixed::FRAC;

verus! {

/// Smallest grain size, in thousandths of a pixel.
pub const MIN_SIZE: u64 = 500;

/// Largest grain size, in thousandths of a pixel.
pub const MAX_SIZE: u64 = 1_000_000;

/// Smallest grain opacity, permille.
pub const MIN_OPACITY: u64 = 100;

/// Largest grain opacity, permille.
pub const MAX_OPACITY: u64 = 1000;

/// Smallest shape factor, permille.
pub const MIN_SHAPE: u64 = 50;

/// Largest shape factor, permille.
pub const MAX_SHAPE: u64 = 20_000;

/// Crystal geometry of a film stock's silver-halide grains.
#[derive(Clone, Copy, Debug, PartialEq, Eq)]
pub enum CrystalShape {
    Irregular,
    Tabular,
    FineIrregular,
    ExtremelyFine,
    Cubic,
}

/// How the opacity of a grain falls off towards its rim.
#[derive(Clone, Copy, Debug, PartialEq, Eq)]
pub enum EdgeType {
    /// Full opacity to 90% of the radius, then a linear falloff.
    Sharp,
    /// Full opacity to 70% of the radius, then a linear falloff.
    Soft,
    /// Full opacity to 95% of the radius, nothing beyond.
    Hard,
}

/// How strongly grains clump together.
#[derive(Clone, Copy, Debug, PartialEq, Eq)]
pub enum ClusteringCategory {
    Light,
    Moderate,
    Heavy,
}

/// An RGB colour.
#[derive(Clone, Copy, Debug, PartialEq, Eq)]
pub struct Rgb {
    pub r: u8,
    pub g: u8,
    pub b: u8,
}

/// Grain physics of one film stock.
#[derive(Clone, Debug)]
pub struct FilmStockProfile {
    pub name: String,
    pub iso: u32,
    pub monochrome: bool,
    pub shape: CrystalShape,
    /// Aspect ratio of a crystal, width over height, both permille.
    pub aspect_width: u32,
    pub aspect_height: u32,
    pub edge_type: EdgeType,
    /// Grain diameters in nanometres.
    pub min_size_nm: u32,
    pub avg_size_nm: u32,
    pub max_size_nm: u32,
    /// Size-variation coefficient, permille.
    pub size_variation: u32,
    /// Grains per square millimetre of film.
    pub density_per_area: u32,
    /// Spatial clustering strength, permille.
    pub spatial_correlation: u32,
    pub clustering: ClusteringCategory,
    /// Opacity range, permille.
    pub opacity_lo: u16,
    pub opacity_hi: u16,
    /// Opacity-variation coefficient, permille.
    pub opacity_variation: u32,
    /// Base tint of the grains.
    pub tint: Rgb,
}

impl FilmStockProfile {
    /// The profile's invariant: an ordered opacity range and a positive
    /// aspect ratio.
    pub open spec fn wf(&self) -> bool {
        &&& self.opacity_lo <= self.opacity_hi
        &&& self.aspect_width > 0
        &&& self.aspect_height > 0
    }
}

/// Measured variation coefficients that take precedence over a profile's own.
#[derive(Clone, Copy, Debug, PartialEq, Eq)]
pub struct VariationData {
    /// Size-variation coefficient, permille.
    pub size_variation: u32,
    /// Opacity-variation coefficient, permille.
    pub opacity_variation: u32,
}

/// Measured fractal clustering coefficients of a film stock.
#[derive(Clone, Copy, Debug, PartialEq, Eq)]
pub struct ClusteringData {
    /// Fractal dimension, permille.
    pub fractal_dimension: u32,
    /// Spatial correlation, permille.
    pub spatial_correlation: u32,
    /// Share of grains that seed a cluster, permille.
    pub cluster_probability: u32,
}

impl ClusteringData {
    /// A dimension of at most three, a correlation and a probability of at
    /// most one.
    pub open spec fn wf(&self) -> bool {
        &&& self.fractal_dimension <= 3000
        &&& self.spatial_correlation <= 1000
        &&& self.cluster_probability <= 1000
    }
}

/// Per-channel dye coupling of a colour stock, permille. A red-to-green
/// coefficient of one or more marks a stock without crossover.
#[derive(Clone, Copy, Debug, PartialEq, Eq)]
pub struct ColorCrossover {
    pub red_to_green: i32,
    pub red_to_blue: i32,
    pub green_to_red: i32,
    pub green_to_blue: i32,
    pub blue_to_red: i32,
    pub blue_to_green: i32,
}

/// How a stock ages, permille: grain growth and contrast loss per year, and
/// the weight of the storage temperature.
#[derive(Clone, Copy, Debug, PartialEq, Eq)]
pub struct AgingEffects {
    pub grain_increase_per_year: u32,
    pub contrast_loss_per_year: u32,
    pub storage_temp_factor: i32,
}

impl AgingEffects {
    /// Growth and loss of at most one per year, a temperature weight of at
    /// most ten either way.
    pub open spec fn wf(&self) -> bool {
        &&& self.grain_increase_per_year <= 1000
        &&& self.contrast_loss_per_year <= 1000
        &&& -10_000 <= self.storage_temp_factor <= 10_000
    }
}

/// Measured coefficients of a stock that drive the post-generation effects.
#[derive(Clone, Copy, Debug, PartialEq, Eq)]
pub struct EnhancedFilmData {
    pub color_crossover: ColorCrossover,
    pub aging_effects: AgingEffects,
    pub clustering_data: ClusteringData,
}

impl EnhancedFilmData {
    pub open spec fn wf(&self) -> bool {
        self.aging_effects.wf() && self.clustering_data.wf()
    }
}

/// One render request.
#[derive(Clone, Copy, Debug, PartialEq, Eq)]
pub struct RenderParams {
    /// Canvas size in pixels.
    pub width: u32,
    pub height: u32,
    /// Grain density multiplier, thousandths (1000 is the stock's own density).
    pub grain_density: u32,
    /// Grain size multiplier, permille.
    pub size_multiplier: u32,
    /// Contrast in percent.
    pub contrast: u16,
    /// Exposure compensation in thousandths of a stop.
    pub exposure_compensation: i32,
    /// Film age in thousandths of a year.
    pub film_age: Option<u32>,
    /// Storage temperature in thousandths of a degree Celsius.
    pub storage_temp: Option<i32>,
}

/// One grain: centre and size in thousandths of a pixel, opacity and shape
/// factor permille.
#[derive(Clone, Copy, Debug, PartialEq, Eq)]
pub struct Grain {
    pub x: u64,
    pub y: u64,
    pub size: u64,
    pub opacity: u64,
    pub shape_factor: u64,
}

/// A grain lies on a `width` x `height` canvas and all its attributes are in
/// their ranges.
pub open spec fn grain_wf(g: Grain, width: int, height: int) -> bool {
    &&& g.x < width * 1000
    &&& g.y < height * 1000
    &&& MIN_SIZE <= g.size <= MAX_SIZE
    &&& MIN_OPACITY <= g.opacity <= MAX_OPACITY
    &&& MIN_SHAPE <= g.shape_factor <= MAX_SHAPE
}

/// Every grain of `gs` is well formed on the canvas.
pub open spec fn grains_wf(gs: Seq<Grain>, width: int, height: int) -> bool {
    forall|i: int| 0 <= i < gs.len() ==> #[trigger] grain_wf(gs[i], width, height)
}

/// The uniform fractions (out of `FRAC`) that decide one grain.
#[derive(Clone, Copy, Debug, PartialEq, Eq)]
pub struct GrainDraws {
    pub x: u64,
    pub y: u64,
    /// Picks among the average, finer and coarser size modes.
    pub mode: u64,
    pub size: u64,
    pub opacity: u64,
    pub opacity_jitter: u64,
    pub shape: u64,
}

impl GrainDraws {
    pub open spec fn wf(&self) -> bool {
        &&& self.x < FRAC
        &&& self.y < FRAC
        &&& self.mode < FRAC
        &&& self.size < FRAC
        &&& self.opacity < FRAC
        &&& self.opacity_jitter < FRAC
        &&& self.shape < FRAC
    }
}

/// The uniform fractions that decide one satellite grain of a cluster.
#[derive(Clone, Copy, Debug, PartialEq, Eq)]
pub struct SatelliteDraw {
    pub angle: u64,
    pub distance: u64,
    pub size: u64,
    pub opacity: u64,
    pub shape: u64,
}

impl SatelliteDraw {
    pub open spec fn wf(&self) -> bool {
        &&& self.angle < FRAC
        &&& self.distance < FRAC
        &&& self.size < FRAC
        &&& self.opacity < FRAC
        &&& self.shape < FRAC
    }
}

/// The fractions that decide one cluster: its seed grain, its number of
/// satellites, and each satellite.
#[derive(Clone, Debug)]
pub struct ClusterDraw {
    pub seed: u64,
    pub count: u64,
    pub satellites: Vec<SatelliteDraw>,
}

impl ClusterDraw {
    pub open spec fn wf(&self) -> bool {
        &&& self.seed < FRAC
        &&& self.count < FRAC
        &&& forall|j: int| 0 <= j < self.satellites@.len() ==> #[trigger] self.satellites@[j].wf()
    }
}

/// Every cluster draw of a plan is well formed.
pub open spec fn plan_wf(plan: Seq<ClusterDraw>) -> bool {
    forall|c: int| 0 <= c < plan.len() ==> #[trigger] plan[c].wf()
}

} // verus!
