//! Accelerated rendering backends: a capability probe over a fixed priority
//! list, a manager for the chosen backend, and the fallback to the CPU
//! rasterizer whenever the accelerated path is unavailable, too small to be
//! worth it, or fails.

use vstd::prelude::*;
use crate::model::{grains_wf, Grain};
use crate::raster::{lemma_render_marks_first_grain, render_grains_parallel, render_spec, RasterSpec};

verus! {

/// The kinds of rendering backend.
#[derive(Clone, Copy, Debug, PartialEq, Eq)]
pub enum GpuBackend {
    Wgpu,
    Metal,
    Cuda,
    OpenCL,
    Cpu,
}

/// A backend that can rasterize a grain population into RGBA bytes.
pub trait GpuGrainRenderer {
    /// Renders the grains; a failure is reported, never fatal.
    fn render_grains(&self, grains: &Vec<Grain>, rs: &RasterSpec) -> Result<Vec<u8>, String>;

    /// A human-readable name of the backend.
    fn get_backend_name(&self) -> &'static str;

    /// Whether the device is usable right now; checked before every dispatch.
    fn is_available(&self) -> bool;
}

/// The CUDA backend for NVIDIA devices. No CUDA runtime is linked, so it
/// never initializes and every render fails.
pub struct CudaGrainRenderer {
    pub device_id: i32,
}

impl CudaGrainRenderer {
    /// Probes for a CUDA device; fails when none is available.
    pub fn new() -> (r: Result<CudaGrainRenderer, String>)
        ensures
            r is Err,
    {
        if !Self::is_cuda_available() {
            return Err("CUDA not available".to_string());
        }
        Ok(CudaGrainRenderer { device_id: 0 })
    }

    /// Whether a CUDA runtime is present: never, in this build.
    pub fn is_cuda_available() -> (r: bool)
        ensures
            !r,
    {
        false
    }
}

impl GpuGrainRenderer for CudaGrainRenderer {
    fn render_grains(&self, grains: &Vec<Grain>, rs: &RasterSpec) -> Result<Vec<u8>, String> {
        Err("CUDA implementation not available".to_string())
    }

    fn get_backend_name(&self) -> &'static str {
        "CUDA (NVIDIA)"
    }

    fn is_available(&self) -> bool {
        Self::is_cuda_available()
    }
}

/// The OpenCL backend for AMD devices. No OpenCL runtime is linked, so it
/// never initializes and every render fails.
pub struct OpenCLGrainRenderer {
    pub device_name: String,
}

impl OpenCLGrainRenderer {
    /// Probes for an OpenCL device; fails when none is available.
    pub fn new() -> (r: Result<OpenCLGrainRenderer, String>)
        ensures
            r is Err,
    {
        if !Self::is_opencl_available() {
            return Err("OpenCL not available".to_string());
        }
        Ok(OpenCLGrainRenderer { device_name: "AMD GPU".to_string() })
    }

    /// Whether an OpenCL runtime is present: never, in this build.
    pub fn is_opencl_available() -> (r: bool)
        ensures
            !r,
    {
        false
    }
}

impl GpuGrainRenderer for OpenCLGrainRenderer {
    fn render_grains(&self, grains: &Vec<Grain>, rs: &RasterSpec) -> Result<Vec<u8>, String> {
        Err("OpenCL implementation not available".to_string())
    }

    fn get_backend_name(&self) -> &'static str {
        "OpenCL (AMD)"
    }

    fn is_available(&self) -> bool {
        Self::is_opencl_available()
    }
}

/// Number of accelerated backends that the probe tries.
pub const PROBE_COUNT: usize = 4;

/// The probe order: the platform-native backend first, then the vendor
/// backends, then the cross-platform one.
pub open spec fn probe_order(i: int) -> GpuBackend {
    if i == 0 {
        GpuBackend::Metal
    } else if i == 1 {
        GpuBackend::Cuda
    } else if i == 2 {
        GpuBackend::OpenCL
    } else {
        GpuBackend::Wgpu
    }
}

/// The backend at position `i` of the probe order.
pub fn probe_candidate(i: usize) -> (r: GpuBackend)
    requires
        i < PROBE_COUNT,
    ensures
        r == probe_order(i as int),
{
    if i == 0 {
        GpuBackend::Metal
    } else if i == 1 {
        GpuBackend::Cuda
    } else if i == 2 {
        GpuBackend::OpenCL
    } else {
        GpuBackend::Wgpu
    }
}

/// Where backend selection stands.
#[derive(Clone, Copy, Debug, PartialEq, Eq)]
pub enum ProbeState {
    Uninitialized,
    /// Trying the candidate at this position of the probe order.
    Probing(usize),
    Ready(GpuBackend),
    Unavailable,
}

/// A probe state is consistent.
pub open spec fn probe_state_wf(s: ProbeState) -> bool {
    match s {
        ProbeState::Probing(i) => i < PROBE_COUNT,
        _ => true,
    }
}

/// The state after the first use asks for a backend.
pub open spec fn start_spec(s: ProbeState) -> ProbeState {
    match s {
        ProbeState::Uninitialized => ProbeState::Probing(0),
        _ => s,
    }
}

/// The state after the current candidate's probe succeeded (`ok`) or failed.
pub open spec fn probe_step_spec(s: ProbeState, ok: bool) -> ProbeState {
    match s {
        ProbeState::Probing(i) => if ok {
            ProbeState::Ready(probe_order(i as int))
        } else if i + 1 < PROBE_COUNT {
            ProbeState::Probing((i + 1) as usize)
        } else {
            ProbeState::Unavailable
        },
        _ => s,
    }
}

/// Starts probing on first use; a state that has begun stays as it is, so
/// the choice is made once and reused.
pub fn start_probing(s: ProbeState) -> (r: ProbeState)
    ensures
        r == start_spec(s),
        probe_state_wf(s) ==> probe_state_wf(r),
{
    match s {
        ProbeState::Uninitialized => ProbeState::Probing(0),
        _ => s,
    }
}

/// The backend to probe next, if selection is still under way.
pub fn next_candidate(s: ProbeState) -> (r: Option<GpuBackend>)
    requires
        probe_state_wf(s),
    ensures
        match s {
            ProbeState::Probing(i) => r == Some(probe_order(i as int)),
            _ => r is None,
        },
{
    match s {
        ProbeState::Probing(i) => Some(probe_candidate(i)),
        _ => None,
    }
}

/// Records the outcome of probing the current candidate.
pub fn on_probe_result(s: ProbeState, ok: bool) -> (r: ProbeState)
    requires
        probe_state_wf(s),
    ensures
        r == probe_step_spec(s, ok),
        probe_state_wf(r),
{
    match s {
        ProbeState::Probing(i) => {
            if ok {
                ProbeState::Ready(probe_candidate(i))
            } else if i + 1 < PROBE_COUNT {
                ProbeState::Probing(i + 1)
            } else {
                ProbeState::Unavailable
            }
        },
        _ => s,
    }
}

/// The state after starting and then feeding probe outcomes in order.
pub open spec fn run_probes(outcomes: Seq<bool>) -> ProbeState
    decreases outcomes.len(),
{
    if outcomes.len() == 0 {
        start_spec(ProbeState::Uninitialized)
    } else {
        probe_step_spec(run_probes(outcomes.drop_last()), outcomes.last())
    }
}

/// While every probe fails, selection walks down the priority list, and
/// reports no backend once the list is exhausted.
pub proof fn lemma_all_probes_fail(outcomes: Seq<bool>)
    requires
        outcomes.len() <= PROBE_COUNT,
        forall|i: int| 0 <= i < outcomes.len() ==> !outcomes[i],
    ensures
        run_probes(outcomes) == if outcomes.len() == PROBE_COUNT {
            ProbeState::Unavailable
        } else {
            ProbeState::Probing(outcomes.len() as usize)
        },
    decreases outcomes.len(),
{
    if outcomes.len() > 0 {
        let init = outcomes.drop_last();
        assert forall|i: int| 0 <= i < init.len() implies !init[i] by {
            assert(init[i] == outcomes[i]);
        }
        lemma_all_probes_fail(init);
        assert(!outcomes.last());
    }
}

/// Selection picks the first backend, in priority order, whose probe
/// succeeds, and keeps it whatever later probes report.
pub proof fn lemma_first_success_wins(outcomes: Seq<bool>, k: int)
    requires
        outcomes.len() <= PROBE_COUNT,
        0 <= k < outcomes.len(),
        outcomes[k],
        forall|j: int| 0 <= j < k ==> !outcomes[j],
    ensures
        run_probes(outcomes) == ProbeState::Ready(probe_order(k)),
    decreases outcomes.len(),
{
    let init = outcomes.drop_last();
    if k < outcomes.len() - 1 {
        assert(init[k]);
        assert forall|j: int| 0 <= j < k implies !init[j] by {
            assert(init[j] == outcomes[j]);
        }
        lemma_first_success_wins(init, k);
    } else {
        assert forall|i: int| 0 <= i < init.len() implies !init[i] by {
            assert(init[i] == outcomes[i]);
        }
        lemma_all_probes_fail(init);
    }
}

/// The chosen accelerated backend, shared read-only after selection.
pub struct GpuManager<R: GpuGrainRenderer> {
    pub renderer: R,
    pub backend: GpuBackend,
}

impl<R: GpuGrainRenderer> GpuManager<R> {
    /// Wraps the renderer that probing selected.
    pub fn new(renderer: R, backend: GpuBackend) -> (r: Self)
        ensures
            r.backend == backend,
    {
        GpuManager { renderer, backend }
    }

    /// Renders on the chosen backend after checking that it is still
    /// available; a lost device is reported as a failure.
    pub fn render_grains(&self, grains: &Vec<Grain>, rs: &RasterSpec) -> Result<Vec<u8>, String> {
        if !self.renderer.is_available() {
            return Err("GPU renderer is not available".to_string());
        }
        self.renderer.render_grains(grains, rs)
    }

    /// The chosen backend and its name.
    pub fn get_backend_info(&self) -> (r: (GpuBackend, &'static str))
        ensures
            r.0 == self.backend,
    {
        (self.backend, self.renderer.get_backend_name())
    }
}

/// Populations above this many grains are worth sending to an accelerator.
pub const ACCEL_THRESHOLD: usize = 50_000;

/// Tries the accelerated backend; workloads below the threshold and a
/// missing backend are refused without touching a device.
pub fn try_gpu_render<R: GpuGrainRenderer>(
    manager: Option<&GpuManager<R>>,
    grains: &Vec<Grain>,
    rs: &RasterSpec,
) -> (r: Result<Vec<u8>, String>)
    ensures
        grains.len() < ACCEL_THRESHOLD ==> r is Err && r->Err_0@ == "Workload too small for GPU"@,
        grains.len() >= ACCEL_THRESHOLD && manager is None ==> r is Err && r->Err_0@
            == "No GPU backend available"@,
{
    if grains.len() < ACCEL_THRESHOLD {
        return Err("Workload too small for GPU".to_string());
    }
    match manager {
        None => Err("No GPU backend available".to_string()),
        Some(m) => m.render_grains(grains, rs),
    }
}

/// Completes a render from the accelerator's outcome: its bytes when it
/// succeeded with a buffer of the right size, the CPU rasterizer's
/// otherwise.
pub fn finish_render(accelerated: Result<Vec<u8>, String>, grains: &Vec<Grain>, rs: &RasterSpec) -> (r:
    Vec<u8>)
    requires
        grains_wf(grains@, rs.width as int, rs.height as int),
        rs.width * rs.height * 4 <= usize::MAX,
    ensures
        r.len() == rs.width * rs.height * 4,
        (accelerated is Ok && accelerated->Ok_0.len() == rs.width * rs.height * 4) ==> r
            == accelerated->Ok_0,
        !(accelerated is Ok && accelerated->Ok_0.len() == rs.width * rs.height * 4) ==> r@
            == render_spec(grains@, *rs),
        (accelerated is Err && grains.len() > 0) ==> r@[((grains@[0].y / 1000) * rs.width
            + grains@[0].x / 1000) * 4 + 3] >= 40,
{
    proof {
        if grains.len() > 0 {
            lemma_render_marks_first_grain(grains@, *rs);
        }
    }
    let expected = rs.width as usize * rs.height as usize * 4;
    match accelerated {
        Ok(data) => {
            if data.len() == expected {
                data
            } else {
                render_grains_parallel(grains, rs)
            }
        },
        Err(_) => render_grains_parallel(grains, rs),
    }
}

/// Renders a population: large populations go to the accelerated backend
/// when there is one, with the CPU rasterizer as the fallback; everything
/// else is rendered on the CPU.
pub fn render_pixels<R: GpuGrainRenderer>(
    manager: Option<&GpuManager<R>>,
    grains: &Vec<Grain>,
    rs: &RasterSpec,
) -> (r: Vec<u8>)
    requires
        grains_wf(grains@, rs.width as int, rs.height as int),
        rs.width * rs.height * 4 <= usize::MAX,
    ensures
        r.len() == rs.width * rs.height * 4,
        (manager is None || grains.len() <= ACCEL_THRESHOLD) ==> r@ == render_spec(grains@, *rs),
{
    if grains.len() > ACCEL_THRESHOLD {
        let accelerated = try_gpu_render(manager, grains, rs);
        finish_render(accelerated, grains, rs)
    } else {
        render_grains_parallel(grains, rs)
    }
}

} // verus!
