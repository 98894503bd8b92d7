use film_grain::backend::{
    finish_render, next_candidate, on_probe_result, render_pixels, start_probing, try_gpu_render,
    CudaGrainRenderer, GpuBackend, GpuGrainRenderer, GpuManager, OpenCLGrainRenderer, ProbeState,
};
use film_grain::composite::composite_grain;
use film_grain::effects::{apply_color_crossover, get_film_grain_color};
use film_grain::model::{
    ClusteringCategory, ColorCrossover, CrystalShape, EdgeType, FilmStockProfile, Grain,
    RenderParams, Rgb,
};
use film_grain::pipeline::generate_grain;
use film_grain::raster::{
    blend_pixel, blend_pixel_fast, chunk_size_for, render_grain_to_pixels, render_grains_parallel,
    PixelWrite, RasterSpec,
};

fn spec(width: u32, height: u32, edge: EdgeType) -> RasterSpec {
    RasterSpec { width, height, edge, color: Rgb { r: 255, g: 255, b: 255 } }
}

fn centred_grain() -> Grain {
    Grain { x: 20_500, y: 20_500, size: 10_000, opacity: 1000, shape_factor: 1000 }
}

fn alpha_at(data: &[u8], width: u32, x: u32, y: u32) -> u8 {
    data[((y * width + x) * 4 + 3) as usize]
}

#[test]
fn empty_population_renders_transparent() {
    let out = render_grains_parallel(&Vec::new(), &spec(7, 5, EdgeType::Sharp));
    assert_eq!(out.len(), 7 * 5 * 4);
    assert!(out.iter().all(|b| *b == 0));
    let none = render_grains_parallel(&Vec::new(), &spec(0, 9, EdgeType::Sharp));
    assert!(none.is_empty());
}

#[test]
fn single_small_grain_exact_bytes() {
    let g = Grain { x: 2500, y: 2500, size: 500, opacity: 100, shape_factor: 1000 };
    let rs = RasterSpec { width: 5, height: 5, edge: EdgeType::Sharp, color: Rgb { r: 10, g: 20, b: 30 } };
    let writes = render_grain_to_pixels(&g, &rs);
    assert_eq!(writes, vec![PixelWrite { x: 2, y: 2, r: 10, g: 20, b: 30, a: 76 }]);
    let out = render_grains_parallel(&vec![g], &rs);
    let mut expected = vec![0u8; 100];
    expected[48..52].copy_from_slice(&[2, 5, 8, 76]);
    assert_eq!(out, expected);
}

#[test]
fn rendering_twice_is_byte_identical() {
    let grains: Vec<Grain> = (0..3000u64)
        .map(|i| Grain {
            x: (i * 7919) % 64_000,
            y: (i * 104_729) % 48_000,
            size: 500 + (i * 37) % 3000,
            opacity: 100 + (i * 13) % 900,
            shape_factor: 600 + (i * 7) % 800,
        })
        .collect();
    let rs = spec(64, 48, EdgeType::Soft);
    let a = render_grains_parallel(&grains, &rs);
    let b = render_grains_parallel(&grains, &rs);
    assert_eq!(a, b);
    assert!(a.chunks(4).any(|p| p[3] > 0));
}

#[test]
fn hard_edge_is_binary_at_nine_and_a_half() {
    let out = render_grains_parallel(&vec![centred_grain()], &spec(41, 41, EdgeType::Hard));
    for y in 0..41u32 {
        for x in 0..41u32 {
            let dx = x as f64 - 20.0;
            let dy = y as f64 - 20.0;
            let d = (dx * dx + dy * dy).sqrt();
            let a = alpha_at(&out, 41, x, y);
            if d <= 9.5 {
                assert_eq!(a, 255, "inside at ({}, {})", x, y);
            } else {
                assert_eq!(a, 0, "outside at ({}, {})", x, y);
            }
        }
    }
}

#[test]
fn soft_edge_has_a_gradient() {
    let out = render_grains_parallel(&vec![centred_grain()], &spec(41, 41, EdgeType::Soft));
    let mut levels = std::collections::BTreeSet::new();
    for y in 0..41u32 {
        for x in 0..41u32 {
            let dx = x as f64 - 20.0;
            let dy = y as f64 - 20.0;
            let d = (dx * dx + dy * dy).sqrt();
            let a = alpha_at(&out, 41, x, y);
            if d > 7.0 && d < 10.0 && a > 0 {
                levels.insert(a);
            }
            if d <= 7.0 {
                assert_eq!(a, 255);
            }
        }
    }
    assert!(levels.len() >= 3, "levels {:?}", levels);
}

#[test]
fn sharp_edge_falls_off_in_last_tenth() {
    let out = render_grains_parallel(&vec![centred_grain()], &spec(41, 41, EdgeType::Sharp));
    assert_eq!(alpha_at(&out, 41, 20, 20), 255);
    // distance 9: exactly at 90% of the radius, still full
    assert_eq!(alpha_at(&out, 41, 29, 20), 255);
    // distance 9.49: 255 * 10 * (10 - 9.486) / 10 = 131
    assert_eq!(alpha_at(&out, 41, 29, 23), 131);
    // distance 10: the rim itself has no alpha left
    assert_eq!(alpha_at(&out, 41, 30, 20), 0);
    assert_eq!(alpha_at(&out, 41, 31, 20), 0);
}

#[test]
fn blend_pixel_exact() {
    let p = PixelWrite { x: 0, y: 0, r: 200, g: 200, b: 200, a: 51 };
    assert_eq!(blend_pixel([100, 50, 0, 30], &p), [120, 80, 40, 51]);
    assert_eq!(blend_pixel([100, 50, 0, 90], &p), [120, 80, 40, 90]);
}

#[test]
fn blend_pixel_fast_exact() {
    assert_eq!(blend_pixel_fast([100, 50, 0, 30], [200, 200, 200, 51]), [119, 79, 39, 51]);
    assert_eq!(blend_pixel_fast([100, 50, 0, 250], [200, 200, 200, 51]), [119, 79, 39, 250]);
    assert_eq!(blend_pixel_fast([0, 0, 0, 100], [0, 0, 0, 100])[3], 100);
    assert_eq!(blend_pixel_fast([1, 2, 3, 4], [200, 200, 200, 0]), [1, 2, 3, 4]);
}

#[test]
fn composite_exact() {
    let mut base = vec![10, 20, 30, 255, 10, 20, 30, 128];
    let grain = vec![250, 250, 250, 255, 250, 250, 250, 0];
    composite_grain(&mut base, &grain);
    assert_eq!(base, vec![250, 250, 250, 255, 10, 20, 30, 128]);
}

#[test]
fn crossover_exact() {
    let x = ColorCrossover { red_to_green: 100, red_to_blue: 50, green_to_red: 200, green_to_blue: 0, blue_to_red: 0, blue_to_green: 100 };
    assert_eq!(apply_color_crossover(Rgb { r: 200, g: 100, b: 50 }, &x), Rgb { r: 220, g: 125, b: 60 });
    let mono = ColorCrossover { red_to_green: 1000, ..x };
    assert_eq!(apply_color_crossover(Rgb { r: 200, g: 100, b: 50 }, &mono), Rgb { r: 200, g: 100, b: 50 });
    let strong = ColorCrossover { red_to_green: 900, red_to_blue: 900, green_to_red: 900, green_to_blue: 900, blue_to_red: 900, blue_to_green: 900 };
    assert_eq!(apply_color_crossover(Rgb { r: 200, g: 200, b: 200 }, &strong), Rgb { r: 255, g: 255, b: 255 });
}

#[test]
fn grain_color_depends_on_stock_data_alone() {
    let base = Rgb { r: 180, g: 180, b: 180 };
    assert_eq!(get_film_grain_color(base, None), base);
    let x = ColorCrossover { red_to_green: 100, red_to_blue: 50, green_to_red: 200, green_to_blue: 0, blue_to_red: 0, blue_to_green: 100 };
    let c = get_film_grain_color(Rgb { r: 200, g: 100, b: 50 }, Some(x));
    assert_eq!(c, Rgb { r: 220, g: 125, b: 60 });
    assert_eq!(c, get_film_grain_color(Rgb { r: 200, g: 100, b: 50 }, Some(x)));
    assert_eq!(c, apply_color_crossover(Rgb { r: 200, g: 100, b: 50 }, &x));
}

#[test]
fn chunk_size_is_bounded() {
    assert_eq!(chunk_size_for(10, 8), 100);
    assert_eq!(chunk_size_for(1_000_000, 8), 1000);
    assert_eq!(chunk_size_for(16_000, 8), 500);
    assert_eq!(chunk_size_for(16_000, 0), 1000);
}

fn many_grains(n: u64) -> Vec<Grain> {
    (0..n)
        .map(|i| Grain { x: (i * 7919) % 300_000, y: (i * 104_729) % 200_000, size: 500, opacity: 300, shape_factor: 1000 })
        .collect()
}

#[test]
fn failing_backend_falls_back_to_cpu() {
    let grains = many_grains(50_001);
    let rs = spec(300, 200, EdgeType::Sharp);
    let cpu = render_grains_parallel(&grains, &rs);
    let manager = GpuManager::new(CudaGrainRenderer { device_id: 0 }, GpuBackend::Cuda);
    assert!(try_gpu_render(Some(&manager), &grains, &rs).is_err());
    let out = render_pixels(Some(&manager), &grains, &rs);
    assert_eq!(out.len(), 300 * 200 * 4);
    assert_eq!(out, cpu);
    assert!(out.chunks(4).any(|p| p[3] > 0));
    assert_eq!(manager.get_backend_info(), (GpuBackend::Cuda, "CUDA (NVIDIA)"));
}

#[test]
fn finish_render_checks_accelerator_output() {
    let grains = many_grains(10);
    let rs = spec(30, 20, EdgeType::Sharp);
    let cpu = render_grains_parallel(&grains, &rs);
    assert_eq!(finish_render(Err("device lost".to_string()), &grains, &rs), cpu);
    assert_eq!(finish_render(Ok(vec![1, 2, 3]), &grains, &rs), cpu);
    let device = vec![7u8; 30 * 20 * 4];
    assert_eq!(finish_render(Ok(device.clone()), &grains, &rs), device);
}

#[test]
fn small_workloads_skip_the_accelerator() {
    let grains = many_grains(100);
    let rs = spec(30, 20, EdgeType::Sharp);
    let manager = GpuManager::new(OpenCLGrainRenderer { device_name: "AMD GPU".to_string() }, GpuBackend::OpenCL);
    assert_eq!(try_gpu_render(Some(&manager), &grains, &rs), Err("Workload too small for GPU".to_string()));
    assert_eq!(try_gpu_render::<OpenCLGrainRenderer>(None, &many_grains(60_000), &rs), Err("No GPU backend available".to_string()));
    assert_eq!(manager.render_grains(&grains, &rs), Err("GPU renderer is not available".to_string()));
}

#[test]
fn stub_backends_never_initialize() {
    assert!(!CudaGrainRenderer::is_cuda_available());
    assert!(!OpenCLGrainRenderer::is_opencl_available());
    assert_eq!(CudaGrainRenderer::new().err(), Some("CUDA not available".to_string()));
    assert_eq!(OpenCLGrainRenderer::new().err(), Some("OpenCL not available".to_string()));
    let c = CudaGrainRenderer { device_id: 0 };
    assert!(!c.is_available());
    assert!(c.render_grains(&Vec::new(), &spec(1, 1, EdgeType::Hard)).is_err());
}

#[test]
fn probing_picks_first_success() {
    let mut s = start_probing(ProbeState::Uninitialized);
    assert_eq!(next_candidate(s), Some(GpuBackend::Metal));
    s = on_probe_result(s, false);
    assert_eq!(next_candidate(s), Some(GpuBackend::Cuda));
    s = on_probe_result(s, false);
    s = on_probe_result(s, true);
    assert_eq!(s, ProbeState::Ready(GpuBackend::OpenCL));
    assert_eq!(next_candidate(s), None);
    assert_eq!(start_probing(s), s);
    assert_eq!(on_probe_result(s, false), s);
}

#[test]
fn probing_all_failures_is_unavailable() {
    let mut s = start_probing(ProbeState::Uninitialized);
    for _ in 0..4 {
        s = on_probe_result(s, false);
    }
    assert_eq!(s, ProbeState::Unavailable);
    assert_eq!(next_candidate(s), None);
}

#[test]
fn dense_stock_full_canvas_scenario() {
    let profile = FilmStockProfile {
        name: "Dense".to_string(),
        iso: 400,
        monochrome: true,
        shape: CrystalShape::Cubic,
        aspect_width: 1000,
        aspect_height: 1000,
        edge_type: EdgeType::Sharp,
        min_size_nm: 500,
        avg_size_nm: 800,
        max_size_nm: 2000,
        size_variation: 500,
        density_per_area: 800_000,
        spatial_correlation: 50,
        clustering: ClusteringCategory::Moderate,
        opacity_lo: 200,
        opacity_hi: 800,
        opacity_variation: 700,
        tint: Rgb { r: 200, g: 200, b: 200 },
    };
    let params = RenderParams {
        width: 1024,
        height: 1024,
        grain_density: 1000,
        size_multiplier: 1000,
        contrast: 100,
        exposure_compensation: 0,
        film_age: None,
        storage_temp: None,
    };
    let image = generate_grain::<CudaGrainRenderer>(&profile, &params, None, None, Rgb { r: 180, g: 180, b: 180 }, None);
    assert_eq!(image.grain_count, 25_600);
    assert_eq!((image.width, image.height), (1024, 1024));
    assert_eq!(image.data.len(), 1024 * 1024 * 4);
    assert!(image.data.chunks(4).filter(|p| p[3] > 0).count() > 0);
}
