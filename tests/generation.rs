use film_grain::cluster::{
    apply_cluster_plan, apply_enhanced_clustering, apply_enhanced_clustering_realistic, ClusterMode,
};
use film_grain::effects::{apply_aging_effects, apply_enhanced_effects};
use film_grain::generate::{generate_from_draws, generate_grains_advanced, grain_from_draws, grain_target};
use film_grain::model::{
    AgingEffects, ClusterDraw, ClusteringCategory, ClusteringData, ColorCrossover, CrystalShape,
    EdgeType, EnhancedFilmData, FilmStockProfile, Grain, GrainDraws, RenderParams, Rgb,
    SatelliteDraw, VariationData,
};

fn tri_x() -> FilmStockProfile {
    FilmStockProfile {
        name: "Kodak Tri-X 400".to_string(),
        iso: 400,
        monochrome: true,
        shape: CrystalShape::Irregular,
        aspect_width: 1000,
        aspect_height: 1000,
        edge_type: EdgeType::Sharp,
        min_size_nm: 500,
        avg_size_nm: 800,
        max_size_nm: 2000,
        size_variation: 500,
        density_per_area: 800_000,
        spatial_correlation: 200,
        clustering: ClusteringCategory::Moderate,
        opacity_lo: 200,
        opacity_hi: 800,
        opacity_variation: 700,
        tint: Rgb { r: 200, g: 200, b: 200 },
    }
}

fn params(width: u32, height: u32) -> RenderParams {
    RenderParams {
        width,
        height,
        grain_density: 1000,
        size_multiplier: 1000,
        contrast: 100,
        exposure_compensation: 0,
        film_age: None,
        storage_temp: None,
    }
}

fn spread_draws(n: usize) -> Vec<GrainDraws> {
    (0..n as u64)
        .map(|i| GrainDraws {
            x: (i * 7919 + 300_000) % 400_000 + 300_000,
            y: (i * 104_729 + 300_000) % 400_000 + 300_000,
            mode: (i * 31_337) % 1_000_000,
            size: (i * 65_537) % 1_000_000,
            opacity: (i * 12_345) % 1_000_000,
            opacity_jitter: (i * 54_321) % 1_000_000,
            shape: (i * 99_991) % 1_000_000,
        })
        .collect()
}

fn satellite(i: u64) -> SatelliteDraw {
    SatelliteDraw {
        angle: (i * 77_777) % 1_000_000,
        distance: (i * 33_333) % 1_000_000,
        size: (i * 11_111) % 1_000_000,
        opacity: (i * 22_222) % 1_000_000,
        shape: (i * 44_444) % 1_000_000,
    }
}

fn plan(n: usize) -> Vec<ClusterDraw> {
    (0..n as u64)
        .map(|c| ClusterDraw {
            seed: (c * 13_579) % 1_000_000,
            count: (c * 24_680) % 1_000_000,
            satellites: (0..5).map(|j| satellite(c * 5 + j + 1)).collect(),
        })
        .collect()
}

fn assert_ranges(grains: &[Grain], width: u32, height: u32) {
    for g in grains {
        assert!(g.opacity >= 100 && g.opacity <= 1000, "opacity {:?}", g);
        assert!(g.size >= 500, "size {:?}", g);
        assert!(g.x < width as u64 * 1000 && g.y < height as u64 * 1000, "position {:?}", g);
    }
}

#[test]
fn target_count_follows_density_formula() {
    let p = tri_x();
    assert_eq!(grain_target(&p, &params(1024, 1024)), 25_600);
    assert_eq!(grain_target(&p, &params(512, 512)), 6_400);
    let mut dense = params(1024, 1024);
    dense.grain_density = 2500;
    assert_eq!(grain_target(&p, &dense), 64_000);
    assert_eq!(grain_target(&p, &params(0, 1024)), 0);
    assert_eq!(grain_target(&p, &params(3, 3)), 0);
}

#[test]
fn grain_from_draws_exact_values() {
    let p = tri_x();
    let mut q = params(100, 50);
    q.size_multiplier = 3000;
    let d = GrainDraws { x: 500_000, y: 250_000, mode: 0, size: 500_000, opacity: 500_000, opacity_jitter: 500_000, shape: 0 };
    let g = grain_from_draws(&p, &q, None, &d);
    assert_eq!(g, Grain { x: 50_000, y: 12_500, size: 1200, opacity: 500, shape_factor: 700 });
    q.exposure_compensation = 1000;
    assert_eq!(grain_from_draws(&p, &q, None, &d).opacity, 650);
    q.exposure_compensation = -1000;
    assert_eq!(grain_from_draws(&p, &q, None, &d).opacity, 400);
}

#[test]
fn grain_from_draws_uses_measured_variation() {
    let p = tri_x();
    let mut q = params(100, 50);
    q.size_multiplier = 3000;
    let d = GrainDraws { x: 0, y: 0, mode: 0, size: 0, opacity: 500_000, opacity_jitter: 0, shape: 999_999 };
    let own = grain_from_draws(&p, &q, None, &d);
    // average mode, lowest draw: 1 - 0.25 with the stock's coefficient 0.5
    assert_eq!(own.size, 900);
    // opacity jitter 1 - 0.35
    assert_eq!(own.opacity, 325);
    let measured = grain_from_draws(&p, &q, Some(VariationData { size_variation: 1000, opacity_variation: 0 }), &d);
    assert_eq!(measured.size, 600);
    assert_eq!(measured.opacity, 500);
}

#[test]
fn opacity_is_clamped_to_its_range() {
    let p = tri_x();
    let mut q = params(10, 10);
    let d = GrainDraws { x: 0, y: 0, mode: 0, size: 0, opacity: 999_999, opacity_jitter: 999_999, shape: 0 };
    q.contrast = 1000;
    assert_eq!(grain_from_draws(&p, &q, None, &d).opacity, 1000);
    q.contrast = 1;
    assert_eq!(grain_from_draws(&p, &q, None, &d).opacity, 100);
    q.contrast = 100;
    q.exposure_compensation = -10_000;
    assert_eq!(grain_from_draws(&p, &q, None, &d).opacity, 100);
}

#[test]
fn generated_count_without_clustering_is_exact() {
    let mut p = tri_x();
    p.spatial_correlation = 50;
    let q = params(256, 256);
    let target = grain_target(&p, &q) as usize;
    assert_eq!(target, 1600);
    let grains = generate_grains_advanced(&p, &q, None);
    assert_eq!(grains.len(), target);
    assert_ranges(&grains, 256, 256);
}

#[test]
fn generated_count_with_clustering_is_bounded() {
    let mut p = tri_x();
    p.clustering = ClusteringCategory::Heavy;
    let q = params(256, 256);
    let grains = generate_grains_advanced(&p, &q, None);
    assert!(grains.len() >= 1600);
    assert!(grains.len() <= 1600 + 400 * 5);
    assert_ranges(&grains, 256, 256);
}

#[test]
fn generated_grains_stay_in_range_after_effects() {
    let p = tri_x();
    let mut q = params(128, 128);
    q.film_age = Some(10_000);
    q.storage_temp = Some(25_000);
    let mut grains = generate_grains_advanced(&p, &q, None);
    assert_ranges(&grains, 128, 128);
    let enhanced = EnhancedFilmData {
        color_crossover: ColorCrossover { red_to_green: 1000, red_to_blue: 0, green_to_red: 0, green_to_blue: 0, blue_to_red: 0, blue_to_green: 0 },
        aging_effects: AgingEffects { grain_increase_per_year: 1000, contrast_loss_per_year: 1000, storage_temp_factor: 10_000 },
        clustering_data: ClusteringData { fractal_dimension: 1800, spatial_correlation: 300, cluster_probability: 400 },
    };
    let before = grains.len();
    apply_enhanced_effects(&mut grains, &q, &enhanced);
    assert!(grains.len() >= before);
    assert_ranges(&grains, 128, 128);
}

#[test]
fn empty_population_passes_effects_unchanged() {
    let mut grains: Vec<Grain> = Vec::new();
    apply_aging_effects(&mut grains, 5000, 20_000, &AgingEffects { grain_increase_per_year: 10, contrast_loss_per_year: 10, storage_temp_factor: 100 });
    assert!(grains.is_empty());
    apply_enhanced_clustering_realistic(&mut grains, 10, 10, &ClusteringData { fractal_dimension: 2000, spatial_correlation: 100, cluster_probability: 1000 });
    assert!(grains.is_empty());
}

#[test]
fn aging_exact_values() {
    let mut grains = vec![Grain { x: 1, y: 2, size: 1000, opacity: 500, shape_factor: 1000 }];
    let aging = AgingEffects { grain_increase_per_year: 100, contrast_loss_per_year: 20, storage_temp_factor: 1000 };
    apply_aging_effects(&mut grains, 10_000, 25_000, &aging);
    assert_eq!(grains[0], Grain { x: 1, y: 2, size: 1200, opacity: 900, shape_factor: 900 });
    // ages beyond ten years count as ten
    let mut older = vec![Grain { x: 1, y: 2, size: 1000, opacity: 500, shape_factor: 1000 }];
    apply_aging_effects(&mut older, 40_000, 25_000, &aging);
    assert_eq!(older, grains);
}

#[test]
fn correlation_increase_adds_satellites() {
    let mut low = tri_x();
    low.clustering = ClusteringCategory::Heavy;
    low.spatial_correlation = 50;
    let mut high = low.clone();
    high.spatial_correlation = 400;
    let q = params(200, 200);
    let target = grain_target(&low, &q) as usize;
    assert_eq!(target, 976);
    let draws = spread_draws(target);
    let cluster_plan = plan(target / 4);
    let a = generate_from_draws(&low, &q, None, &draws, &cluster_plan);
    let b = generate_from_draws(&high, &q, None, &draws, &cluster_plan);
    assert_eq!(a.len(), target);
    assert!(b.len() > a.len());
    assert_eq!(&b[..target], &a[..]);
}

#[test]
fn cluster_plan_respects_category_limits() {
    let g = Grain { x: 50_000, y: 50_000, size: 1000, opacity: 500, shape_factor: 1000 };
    let mut grains = vec![g; 20];
    let light_plan = plan(10);
    apply_cluster_plan(&mut grains, &light_plan, ClusterMode::Category(ClusteringCategory::Light), 100, 100);
    // light: 8% of 20 grains is one cluster of two satellites, both on canvas
    assert_eq!(grains.len(), 22);
    for s in &grains[20..] {
        let dx = s.x as f64 - 50_000.0;
        let dy = s.y as f64 - 50_000.0;
        let d = (dx * dx + dy * dy).sqrt();
        assert!(d >= 450.0 && d <= 2550.0, "distance {}", d);
        assert!(s.size >= 800 && s.size <= 1200);
    }
}

#[test]
fn size_and_shape_are_clamped() {
    let mut p = tri_x();
    p.aspect_width = 100_000;
    let mut q = params(10, 10);
    q.size_multiplier = 4_000_000;
    let d = GrainDraws { x: 0, y: 0, mode: 950_000, size: 999_999, opacity: 0, opacity_jitter: 0, shape: 0 };
    let g = grain_from_draws(&p, &q, None, &d);
    assert_eq!(g.size, 1_000_000);
    assert_eq!(g.shape_factor, 20_000);
    p.aspect_width = 1;
    q.size_multiplier = 0;
    let g = grain_from_draws(&p, &q, None, &d);
    assert_eq!(g.size, 500);
    assert_eq!(g.shape_factor, 50);
}

#[test]
fn fractal_plan_spawns_by_dimension() {
    let g = Grain { x: 50_000, y: 50_000, size: 1000, opacity: 500, shape_factor: 1000 };
    let mut grains = vec![g; 10];
    let data = ClusteringData { fractal_dimension: 1500, spatial_correlation: 500, cluster_probability: 1000 };
    apply_cluster_plan(&mut grains, &plan(10), ClusterMode::Fractal(data), 100, 100);
    // ten clusters of (1.5 - 1) * 6 = 3 satellites, all within 4.5 pixels of the centre
    assert_eq!(grains.len(), 40);
    for s in &grains[10..] {
        let dx = s.x as f64 - 50_000.0;
        let dy = s.y as f64 - 50_000.0;
        assert!((dx * dx + dy * dy).sqrt() <= 4_600.0);
        assert!(s.opacity >= 100 && s.opacity <= 1000);
    }
    let mut none = vec![g; 10];
    let flat = ClusteringData { fractal_dimension: 1100, spatial_correlation: 500, cluster_probability: 1000 };
    apply_cluster_plan(&mut none, &plan(10), ClusterMode::Fractal(flat), 100, 100);
    assert_eq!(none.len(), 10);
}

#[test]
fn heavy_clustering_adds_grains_away_from_edges() {
    let g = Grain { x: 50_000, y: 50_000, size: 1000, opacity: 500, shape_factor: 1000 };
    for _ in 0..20 {
        let mut grains = vec![g; 8];
        apply_enhanced_clustering(&mut grains, 100, 100, ClusteringCategory::Heavy);
        // two clusters of three to five satellites, all within 2.5 pixels
        assert!(grains.len() >= 8 + 2 * 3 && grains.len() <= 8 + 2 * 5, "{}", grains.len());
        assert_eq!(&grains[..8], &vec![g; 8][..]);
    }
}
