//! Compute backend identification on top of trueno's runtime backend selection.
use vstd::prelude::*;
use crate::text::{append_str};

verus! {

/// Information about the compute backend being used.
#[derive(Debug, Clone, Copy, PartialEq, Eq, Structural)]
pub enum ComputeBackend {
    /// CPU scalar (no SIMD)
    CpuScalar,
    /// CPU SIMD (SSE/AVX/NEON)
    CpuSimd,
    /// WebAssembly SIMD128
    WasmSimd,
    /// GPU compute (WebGPU/Vulkan/Metal)
    Gpu,
}

impl ComputeBackend {
    /// The display text of a backend.
    pub open spec fn label_text(self) -> Seq<char> {
        match self {
            ComputeBackend::CpuScalar => "CPU Scalar"@,
            ComputeBackend::CpuSimd => "CPU SIMD"@,
            ComputeBackend::WasmSimd => "WASM SIMD128"@,
            ComputeBackend::Gpu => "GPU Compute"@,
        }
    }

    /// Returns the display text of this backend.
    pub fn label(self) -> (s: &'static str)
        ensures
            s@ == self.label_text(),
    {
        match self {
            ComputeBackend::CpuScalar => "CPU Scalar",
            ComputeBackend::CpuSimd => "CPU SIMD",
            ComputeBackend::WasmSimd => "WASM SIMD128",
            ComputeBackend::Gpu => "GPU Compute",
        }
    }
}

/// The execution backends that trueno distinguishes (its `Backend` enum).
#[derive(Debug, Clone, Copy, PartialEq, Eq, Structural)]
pub enum BackendKind {
    /// Scalar fallback (no SIMD)
    Scalar,
    /// SSE2 (x86_64 baseline)
    Sse2,
    /// AVX (256-bit)
    Avx,
    /// AVX2 (256-bit with FMA)
    Avx2,
    /// AVX-512 (512-bit)
    Avx512,
    /// ARM NEON
    Neon,
    /// WebAssembly SIMD128
    WasmSimd,
    /// GPU compute (wgpu)
    Gpu,
    /// Auto-select best available
    Auto,
}

/// How a trueno backend is classified as a compute backend.
pub open spec fn classify_backend(backend: BackendKind) -> ComputeBackend {
    match backend {
        BackendKind::Scalar => ComputeBackend::CpuScalar,
        BackendKind::Sse2 | BackendKind::Avx | BackendKind::Avx2 | BackendKind::Avx512
        | BackendKind::Neon => ComputeBackend::CpuSimd,
        BackendKind::WasmSimd => ComputeBackend::WasmSimd,
        BackendKind::Gpu => ComputeBackend::Gpu,
        BackendKind::Auto => ComputeBackend::CpuSimd,
    }
}

/// Converts a trueno backend to our ComputeBackend enum.
pub fn trueno_backend_to_compute_backend(backend: BackendKind) -> (c: ComputeBackend)
    ensures
        c == classify_backend(backend),
{
    match backend {
        BackendKind::Scalar => ComputeBackend::CpuScalar,
        BackendKind::Sse2 | BackendKind::Avx | BackendKind::Avx2 | BackendKind::Avx512
        | BackendKind::Neon => ComputeBackend::CpuSimd,
        BackendKind::WasmSimd => ComputeBackend::WasmSimd,
        BackendKind::Gpu => ComputeBackend::Gpu,
        // Auto typically selects SIMD
        BackendKind::Auto => ComputeBackend::CpuSimd,
    }
}

/// The backend that `trueno::select_best_available_backend` picks for this
/// machine; trueno's `Vector::from_slice` records exactly this backend in every
/// vector it builds. Trusted: the choice depends on the CPU features detected at
/// run time, so only what holds on every machine is stated: trueno's source
/// returns AVX2, AVX, SSE2, NEON, WASM SIMD128 or scalar, never AVX-512, GPU or Auto.
#[verifier::external_body]
fn select_best_backend() -> (b: BackendKind)
    ensures
        !(b is Avx512 || b is Gpu || b is Auto),
{
    match trueno::select_best_available_backend() {
        trueno::Backend::Scalar => BackendKind::Scalar,
        trueno::Backend::SSE2 => BackendKind::Sse2,
        trueno::Backend::AVX => BackendKind::Avx,
        trueno::Backend::AVX2 => BackendKind::Avx2,
        trueno::Backend::AVX512 => BackendKind::Avx512,
        trueno::Backend::NEON => BackendKind::Neon,
        trueno::Backend::WasmSIMD => BackendKind::WasmSimd,
        trueno::Backend::GPU => BackendKind::Gpu,
        trueno::Backend::Auto => BackendKind::Auto,
    }
}

/// Detects the best available compute backend.
///
/// This queries trueno's runtime backend selection to determine
/// what SIMD capabilities are available; runtime selection never picks the GPU.
pub fn detect_compute_backend() -> (c: ComputeBackend)
    ensures
        exists|b: BackendKind| !(b is Avx512 || b is Gpu || b is Auto) && c == classify_backend(b),
        c != ComputeBackend::Gpu,
{
    let b = select_best_backend();
    trueno_backend_to_compute_backend(b)
}

/// Benchmark result for SIMD operations.
#[derive(Debug, Clone)]
pub struct SimdBenchmark {
    /// Operation name
    pub operation: String,
    /// Number of elements processed
    pub element_count: usize,
    /// Backend used
    pub backend: ComputeBackend,
    /// Whether SIMD acceleration was applied
    pub simd_accelerated: bool,
}

impl SimdBenchmark {
    /// Creates a new benchmark result on the detected backend.
    pub fn new(operation: &str, element_count: usize) -> (b: Self)
        ensures
            b.operation@ == operation@,
            b.element_count == element_count,
            b.simd_accelerated,
            b.backend != ComputeBackend::Gpu,
    {
        let mut name = String::new();
        append_str(&mut name, operation);
        assert(name@ =~= operation@);
        SimdBenchmark {
            operation: name,
            element_count,
            backend: detect_compute_backend(),
            simd_accelerated: true,
        }
    }
}

} // verus!
