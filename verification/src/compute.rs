//! Compute capability detection and the GPU compute demonstration layer.
//!
//! | Tier   | Backend        | Capability            |
//! |--------|----------------|-----------------------|
//! | Tier 1 | WebGPU Compute | 10,000+ rigid bodies  |
//! | Tier 2 | WASM SIMD128   | 1,000+ rigid bodies   |
//! | Tier 3 | Scalar         | ~100 rigid bodies     |
use vstd::prelude::*;
use crate::simd::{detect_compute_backend, ComputeBackend};
use crate::text::{append_decimal, append_str, decimal};

verus! {

/// Compute capability tier classification (a lower tier is a better one).
#[derive(Debug, Clone, Copy, PartialEq, Eq, Structural, PartialOrd, Ord)]
pub enum ComputeTier {
    /// Tier 1: WebGPU compute shaders available
    Tier1Gpu,
    /// Tier 2: SIMD acceleration available (AVX2/NEON/WASM SIMD)
    Tier2Simd,
    /// Tier 3: Scalar fallback only
    Tier3Scalar,
}

impl ComputeTier {
    /// The tier number (1 for GPU, 2 for SIMD, 3 for scalar).
    pub open spec fn rank(self) -> int {
        match self {
            ComputeTier::Tier1Gpu => 1,
            ComputeTier::Tier2Simd => 2,
            ComputeTier::Tier3Scalar => 3,
        }
    }

    /// The display text of a tier.
    pub open spec fn label_text(self) -> Seq<char> {
        match self {
            ComputeTier::Tier1Gpu => "Tier 1 (GPU)"@,
            ComputeTier::Tier2Simd => "Tier 2 (SIMD)"@,
            ComputeTier::Tier3Scalar => "Tier 3 (Scalar)"@,
        }
    }

    /// Returns the display text of this tier.
    pub fn label(self) -> (s: &'static str)
        ensures
            s@ == self.label_text(),
    {
        match self {
            ComputeTier::Tier1Gpu => "Tier 1 (GPU)",
            ComputeTier::Tier2Simd => "Tier 2 (SIMD)",
            ComputeTier::Tier3Scalar => "Tier 3 (Scalar)",
        }
    }
}

/// Detected compute capabilities for the current platform.
#[derive(Debug, Clone)]
pub struct ComputeCapability {
    /// Compute tier classification
    pub tier: ComputeTier,
    /// Underlying backend being used
    pub backend: ComputeBackend,
    /// Whether GPU compute is available
    pub gpu_available: bool,
    /// Whether SIMD is available
    pub simd_available: bool,
    /// Maximum recommended particle count for 60 FPS
    pub max_recommended_particles: u32,
    /// Maximum recommended rigid body count for 60 FPS
    pub max_recommended_bodies: u32,
    /// Recommended batch size for physics updates
    pub optimal_batch_size: u32,
}

/// The capability figures of a backend: GPU gives tier 1 (100,000 particles,
/// 10,000 bodies, batches of 1024), CPU or WASM SIMD tier 2 (10,000 / 1,000 / 256),
/// scalar tier 3 (1,000 / 100 / 64).
pub open spec fn capability_for(backend: ComputeBackend, c: ComputeCapability) -> bool {
    &&& c.backend == backend
    &&& match backend {
        ComputeBackend::Gpu => {
            &&& c.tier == ComputeTier::Tier1Gpu
            &&& c.gpu_available && c.simd_available
            &&& c.max_recommended_particles == 100_000
            &&& c.max_recommended_bodies == 10_000
            &&& c.optimal_batch_size == 1024
        },
        ComputeBackend::CpuSimd | ComputeBackend::WasmSimd => {
            &&& c.tier == ComputeTier::Tier2Simd
            &&& !c.gpu_available && c.simd_available
            &&& c.max_recommended_particles == 10_000
            &&& c.max_recommended_bodies == 1_000
            &&& c.optimal_batch_size == 256
        },
        ComputeBackend::CpuScalar => {
            &&& c.tier == ComputeTier::Tier3Scalar
            &&& !c.gpu_available && !c.simd_available
            &&& c.max_recommended_particles == 1_000
            &&& c.max_recommended_bodies == 100
            &&& c.optimal_batch_size == 64
        },
    }
}

impl ComputeCapability {
    /// Creates capability info from detected backend.
    pub fn from_backend(backend: ComputeBackend) -> (c: Self)
        ensures
            capability_for(backend, c),
    {
        let (tier, gpu_available, simd_available, particles, bodies, batch) = match backend {
            ComputeBackend::Gpu => (ComputeTier::Tier1Gpu, true, true, 100_000u32, 10_000u32, 1024u32),
            ComputeBackend::CpuSimd | ComputeBackend::WasmSimd => {
                (ComputeTier::Tier2Simd, false, true, 10_000u32, 1_000u32, 256u32)
            },
            ComputeBackend::CpuScalar => (ComputeTier::Tier3Scalar, false, false, 1_000u32, 100u32, 64u32),
        };
        ComputeCapability {
            tier,
            backend,
            gpu_available,
            simd_available,
            max_recommended_particles: particles,
            max_recommended_bodies: bodies,
            optimal_batch_size: batch,
        }
    }

    /// Returns true if the system can handle large-scale physics (tier 2 or better).
    pub fn supports_large_scale_physics(&self) -> (b: bool)
        ensures
            b <==> self.tier.rank() <= ComputeTier::Tier2Simd.rank(),
    {
        match self.tier {
            ComputeTier::Tier1Gpu | ComputeTier::Tier2Simd => true,
            ComputeTier::Tier3Scalar => false,
        }
    }

    /// Returns the recommended physics substep count for stable simulation.
    pub fn recommended_substeps(&self) -> (n: u32)
        ensures
            n == (match self.tier {
                ComputeTier::Tier1Gpu => 1u32,
                ComputeTier::Tier2Simd => 2u32,
                ComputeTier::Tier3Scalar => 4u32,
            }),
    {
        match self.tier {
            ComputeTier::Tier1Gpu => 1,
            ComputeTier::Tier2Simd => 2,
            ComputeTier::Tier3Scalar => 4,
        }
    }
}

/// A better (lower) tier never recommends more substeps nor fewer particles,
/// bodies or a smaller batch, and it handles large-scale physics whenever a
/// worse tier does; GPU availability implies SIMD availability.
pub proof fn lemma_tiers_monotone(b1: ComputeBackend, c1: ComputeCapability, b2: ComputeBackend, c2: ComputeCapability)
    requires
        capability_for(b1, c1),
        capability_for(b2, c2),
        c1.tier.rank() <= c2.tier.rank(),
    ensures
        c1.max_recommended_particles >= c2.max_recommended_particles,
        c1.max_recommended_bodies >= c2.max_recommended_bodies,
        c1.optimal_batch_size >= c2.optimal_batch_size,
        c1.gpu_available ==> c1.simd_available,
        c2.simd_available ==> c1.simd_available,
{
}

/// Detects the compute capabilities of the current platform.
pub fn detect_compute_capability() -> (c: ComputeCapability)
    ensures
        capability_for(c.backend, c),
        c.backend != ComputeBackend::Gpu,
{
    let backend = detect_compute_backend();
    ComputeCapability::from_backend(backend)
}

impl Default for ComputeCapability {
    /// The detected capability of the current platform.
    fn default() -> (c: Self)
        ensures
            capability_for(c.backend, c),
            c.backend != ComputeBackend::Gpu,
    {
        detect_compute_capability()
    }
}

/// State for the compute demo.
#[derive(Debug, Clone, Copy, PartialEq, Eq, Structural)]
pub enum ComputeDemoState {
    /// Not started
    Idle,
    /// Demo is running
    Running,
    /// Demo completed
    Completed,
}

/// WebGPU compute demonstration module.
#[derive(Debug, Clone)]
pub struct ComputeDemo {
    /// Current capability
    capability: ComputeCapability,
    /// Demo state
    state: ComputeDemoState,
}

/// Result of a compute benchmark run.
#[derive(Debug, Clone)]
pub struct ComputeBenchmarkResult {
    /// Number of particles processed
    pub particle_count: usize,
    /// Backend used
    pub backend: ComputeBackend,
    /// Tier classification
    pub tier: ComputeTier,
    /// Whether positions were updated
    pub positions_updated: bool,
    /// Whether velocities were updated
    pub velocities_updated: bool,
}

impl ComputeDemo {
    /// The capability the demo was created with.
    pub closed spec fn spec_capability(&self) -> ComputeCapability {
        self.capability
    }

    /// The demo's current state.
    pub closed spec fn spec_state(&self) -> ComputeDemoState {
        self.state
    }

    /// Creates a new compute demonstration on the detected capability.
    pub fn new() -> (d: Self)
        ensures
            d.spec_state() == ComputeDemoState::Idle,
            capability_for(d.spec_capability().backend, d.spec_capability()),
    {
        ComputeDemo { capability: detect_compute_capability(), state: ComputeDemoState::Idle }
    }

    /// Returns the detected compute capability.
    pub fn capability(&self) -> (c: &ComputeCapability)
        ensures
            *c == self.spec_capability(),
    {
        &self.capability
    }

    /// Returns the current demo state.
    pub fn state(&self) -> (s: ComputeDemoState)
        ensures
            s == self.spec_state(),
    {
        self.state
    }

    /// Starts the compute demo.
    pub fn start(&mut self)
        ensures
            final(self).spec_state() == ComputeDemoState::Running,
            final(self).spec_capability() == old(self).spec_capability(),
    {
        self.state = ComputeDemoState::Running;
    }

    /// Runs a compute benchmark over `particle_count` particles and returns the
    /// result; the demo ends in the completed state.
    pub fn run_benchmark(&mut self, particle_count: usize) -> (r: ComputeBenchmarkResult)
        ensures
            final(self).spec_state() == ComputeDemoState::Completed,
            final(self).spec_capability() == old(self).spec_capability(),
            r.particle_count == particle_count,
            r.backend == old(self).spec_capability().backend,
            r.tier == old(self).spec_capability().tier,
            r.positions_updated == (particle_count > 0),
            r.velocities_updated == (particle_count > 0),
    {
        self.state = ComputeDemoState::Running;
        self.state = ComputeDemoState::Completed;
        ComputeBenchmarkResult {
            particle_count,
            backend: self.capability.backend,
            tier: self.capability.tier,
            positions_updated: particle_count > 0,
            velocities_updated: particle_count > 0,
        }
    }

    /// Stops the demo and resets state.
    pub fn stop(&mut self)
        ensures
            final(self).spec_state() == ComputeDemoState::Idle,
            final(self).spec_capability() == old(self).spec_capability(),
    {
        self.state = ComputeDemoState::Idle;
    }
}

impl Default for ComputeDemo {
    fn default() -> (d: Self)
        ensures
            d.spec_state() == ComputeDemoState::Idle,
            capability_for(d.spec_capability().backend, d.spec_capability()),
    {
        ComputeDemo::new()
    }
}

impl ComputeBenchmarkResult {
    /// Returns a summary string for display:
    /// `"Processed <count> particles using <backend> (<tier>)"`.
    pub fn summary(&self) -> (s: String)
        ensures
            s@ == "Processed "@ + decimal(self.particle_count as nat) + " particles using "@
                + self.backend.label_text() + " ("@ + self.tier.label_text() + ")"@,
    {
        let mut s = String::new();
        append_str(&mut s, "Processed ");
        append_decimal(&mut s, self.particle_count as u64);
        append_str(&mut s, " particles using ");
        append_str(&mut s, self.backend.label());
        append_str(&mut s, " (");
        append_str(&mut s, self.tier.label());
        append_str(&mut s, ")");
        assert(s@ =~= "Processed "@ + decimal(self.particle_count as nat) + " particles using "@
            + self.backend.label_text() + " ("@ + self.tier.label_text() + ")"@);
        s
    }
}

/// Type of compute shader.
#[derive(Debug, Clone, Copy, PartialEq, Eq, Structural)]
pub enum ShaderType {
    /// Particle physics update
    ParticlePhysics,
    /// Collision detection broad phase
    CollisionBroadPhase,
    /// Collision detection narrow phase
    CollisionNarrowPhase,
    /// Constraint solver
    ConstraintSolver,
}

impl ShaderType {
    /// Returns the display text of this shader type.
    pub fn label(self) -> (s: &'static str)
        ensures
            s@ == (match self {
                ShaderType::ParticlePhysics => "Particle Physics"@,
                ShaderType::CollisionBroadPhase => "Collision Broad Phase"@,
                ShaderType::CollisionNarrowPhase => "Collision Narrow Phase"@,
                ShaderType::ConstraintSolver => "Constraint Solver"@,
            }),
    {
        match self {
            ShaderType::ParticlePhysics => "Particle Physics",
            ShaderType::CollisionBroadPhase => "Collision Broad Phase",
            ShaderType::CollisionNarrowPhase => "Collision Narrow Phase",
            ShaderType::ConstraintSolver => "Constraint Solver",
        }
    }
}

/// GPU compute shader information (for future WebGPU integration).
#[derive(Debug, Clone)]
pub struct GpuShaderInfo {
    /// Shader name
    pub name: String,
    /// Shader type
    pub shader_type: ShaderType,
    /// Workgroup size X
    pub workgroup_x: u32,
    /// Workgroup size Y
    pub workgroup_y: u32,
    /// Workgroup size Z
    pub workgroup_z: u32,
}

impl GpuShaderInfo {
    /// The number of invocations in one workgroup.
    pub open spec fn total_size(&self) -> int {
        self.workgroup_x * self.workgroup_y * self.workgroup_z
    }

    /// Creates info for a particle physics shader (workgroups of 256 x 1 x 1).
    pub fn particle_physics() -> (s: Self)
        ensures
            s.name@ == "jugar_particle_physics"@,
            s.shader_type == ShaderType::ParticlePhysics,
            s.workgroup_x == 256 && s.workgroup_y == 1 && s.workgroup_z == 1,
    {
        GpuShaderInfo {
            name: String::from_str("jugar_particle_physics"),
            shader_type: ShaderType::ParticlePhysics,
            workgroup_x: 256,
            workgroup_y: 1,
            workgroup_z: 1,
        }
    }

    /// Creates info for a collision broad phase shader (workgroups of 64 x 1 x 1).
    pub fn collision_broad_phase() -> (s: Self)
        ensures
            s.name@ == "jugar_collision_broad"@,
            s.shader_type == ShaderType::CollisionBroadPhase,
            s.workgroup_x == 64 && s.workgroup_y == 1 && s.workgroup_z == 1,
    {
        GpuShaderInfo {
            name: String::from_str("jugar_collision_broad"),
            shader_type: ShaderType::CollisionBroadPhase,
            workgroup_x: 64,
            workgroup_y: 1,
            workgroup_z: 1,
        }
    }

    /// Returns total workgroup size.
    pub fn workgroup_size(&self) -> (n: u32)
        requires
            self.workgroup_x * self.workgroup_y <= u32::MAX,
            self.total_size() <= u32::MAX,
        ensures
            n == self.total_size(),
    {
        let xy: u32 = self.workgroup_x * self.workgroup_y;
        xy * self.workgroup_z
    }

    /// Returns number of workgroups needed for given element count: the count
    /// divided by the workgroup size, rounded up (0 for an empty workgroup).
    pub fn workgroups_for(&self, element_count: u32) -> (n: u32)
        requires
            self.workgroup_x * self.workgroup_y <= u32::MAX,
            self.total_size() <= u32::MAX,
            element_count + self.total_size() <= u32::MAX,
        ensures
            self.total_size() == 0 ==> n == 0,
            self.total_size() > 0 ==> n == (element_count + self.total_size() - 1) / self.total_size(),
    {
        let size = self.workgroup_size();
        if size == 0 {
            return 0;
        }
        (element_count + size - 1) / size
    }
}

/// The workgroup count is the least number of workgroups that covers all elements.
pub proof fn lemma_workgroups_cover(count: int, size: int, n: int)
    requires
        count >= 0,
        size > 0,
        n == (count + size - 1) / size,
    ensures
        n * size >= count,
        n == 0 || (n - 1) * size < count,
{
    assert(n * size >= count && (n == 0 || (n - 1) * size < count)) by (nonlinear_arith)
        requires
            count >= 0,
            size > 0,
            n == (count + size - 1) / size,
    ;
}

} // verus!
