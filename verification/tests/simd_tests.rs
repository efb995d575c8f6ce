use jugar_web::simd::{
    detect_compute_backend, trueno_backend_to_compute_backend, BackendKind, ComputeBackend,
    SimdBenchmark,
};

#[test]
fn test_compute_backend_display() {
    assert_eq!(ComputeBackend::CpuScalar.label(), "CPU Scalar");
    assert_eq!(ComputeBackend::CpuSimd.label(), "CPU SIMD");
    assert_eq!(ComputeBackend::WasmSimd.label(), "WASM SIMD128");
    assert_eq!(ComputeBackend::Gpu.label(), "GPU Compute");
}

#[test]
fn test_simd_benchmark_new() {
    let bench = SimdBenchmark::new("particle_update", 1000);

    assert_eq!(bench.operation, "particle_update");
    assert_eq!(bench.element_count, 1000);
    assert!(bench.simd_accelerated);
}

#[test]
fn test_detect_compute_backend() {
    let backend = detect_compute_backend();
    assert!(matches!(
        backend,
        ComputeBackend::CpuScalar | ComputeBackend::CpuSimd | ComputeBackend::WasmSimd | ComputeBackend::Gpu
    ));
}

#[test]
fn detected_backend_is_never_gpu() {
    assert_ne!(detect_compute_backend(), ComputeBackend::Gpu);
    assert_ne!(SimdBenchmark::new("x", 0).backend, ComputeBackend::Gpu);
}

#[test]
fn detected_backend_follows_trueno_selection() {
    let selected = match trueno::select_best_available_backend() {
        trueno::Backend::Scalar => BackendKind::Scalar,
        trueno::Backend::SSE2 => BackendKind::Sse2,
        trueno::Backend::AVX => BackendKind::Avx,
        trueno::Backend::AVX2 => BackendKind::Avx2,
        trueno::Backend::AVX512 => BackendKind::Avx512,
        trueno::Backend::NEON => BackendKind::Neon,
        trueno::Backend::WasmSIMD => BackendKind::WasmSimd,
        trueno::Backend::GPU => BackendKind::Gpu,
        trueno::Backend::Auto => BackendKind::Auto,
    };
    assert_eq!(detect_compute_backend(), trueno_backend_to_compute_backend(selected));
}

#[test]
fn test_trueno_backend_to_compute_backend() {
    assert_eq!(trueno_backend_to_compute_backend(BackendKind::Scalar), ComputeBackend::CpuScalar);
    assert_eq!(trueno_backend_to_compute_backend(BackendKind::Sse2), ComputeBackend::CpuSimd);
    assert_eq!(trueno_backend_to_compute_backend(BackendKind::Avx2), ComputeBackend::CpuSimd);
    assert_eq!(trueno_backend_to_compute_backend(BackendKind::WasmSimd), ComputeBackend::WasmSimd);
    assert_eq!(trueno_backend_to_compute_backend(BackendKind::Gpu), ComputeBackend::Gpu);
}

#[test]
fn remaining_trueno_backends() {
    assert_eq!(trueno_backend_to_compute_backend(BackendKind::Avx), ComputeBackend::CpuSimd);
    assert_eq!(trueno_backend_to_compute_backend(BackendKind::Avx512), ComputeBackend::CpuSimd);
    assert_eq!(trueno_backend_to_compute_backend(BackendKind::Neon), ComputeBackend::CpuSimd);
    assert_eq!(trueno_backend_to_compute_backend(BackendKind::Auto), ComputeBackend::CpuSimd);
}
