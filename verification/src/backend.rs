use vstd::prelude::*;
use vstd::string::StringExecFns;

use crate::error::Qwen3TtsLoadError;

verus! {

/// The compute backends a model can be loaded on.
#[derive(Debug, Clone, Copy, PartialEq, Eq, Structural)]
pub enum Qwen3TtsBackend {
    Flex,
    Wgpu,
    Cuda,
    Rocm,
    Metal,
    Vulkan,
    WebGpu,
}

pub open spec fn backend_label(backend: Qwen3TtsBackend) -> Seq<char> {
    match backend {
        Qwen3TtsBackend::Flex => "flex"@,
        Qwen3TtsBackend::Wgpu => "wgpu"@,
        Qwen3TtsBackend::Cuda => "cuda"@,
        Qwen3TtsBackend::Rocm => "rocm"@,
        Qwen3TtsBackend::Metal => "metal"@,
        Qwen3TtsBackend::Vulkan => "vulkan"@,
        Qwen3TtsBackend::WebGpu => "webgpu"@,
    }
}

impl Qwen3TtsBackend {
    /// The name of the backend as used on the command line and in messages.
    pub fn label(&self) -> (s: &'static str)
        ensures
            s@ == backend_label(*self),
    {
        match self {
            Qwen3TtsBackend::Flex => "flex",
            Qwen3TtsBackend::Wgpu => "wgpu",
            Qwen3TtsBackend::Cuda => "cuda",
            Qwen3TtsBackend::Rocm => "rocm",
            Qwen3TtsBackend::Metal => "metal",
            Qwen3TtsBackend::Vulkan => "vulkan",
            Qwen3TtsBackend::WebGpu => "webgpu",
        }
    }
}

/// Which backends were compiled into this build.
#[derive(Debug, Clone, Copy, PartialEq, Eq, Structural)]
pub struct BackendFeatures {
    pub flex: bool,
    pub wgpu: bool,
    pub cuda: bool,
    pub rocm: bool,
    pub metal: bool,
    pub vulkan: bool,
    pub webgpu: bool,
}

pub open spec fn backend_enabled(features: BackendFeatures, backend: Qwen3TtsBackend) -> bool {
    match backend {
        Qwen3TtsBackend::Flex => features.flex,
        Qwen3TtsBackend::Wgpu => features.wgpu,
        Qwen3TtsBackend::Cuda => features.cuda,
        Qwen3TtsBackend::Rocm => features.rocm,
        Qwen3TtsBackend::Metal => features.metal,
        Qwen3TtsBackend::Vulkan => features.vulkan,
        Qwen3TtsBackend::WebGpu => features.webgpu,
    }
}

/// Graphics API set up on a WGPU device before loading.
#[derive(Debug, Clone, Copy, PartialEq, Eq, Structural)]
pub enum WgpuGraphicsSetup {
    /// The default WGPU device, with no extra setup.
    Plain,
    Metal,
    Vulkan,
    WebGpu,
}

/// How a model is loaded on the chosen backend.
#[derive(Debug, Clone, Copy, PartialEq, Eq, Structural)]
pub enum BackendLoadPlan {
    /// Load on the backend's default device.
    DefaultDevice(Qwen3TtsBackend),
    /// Load on the default WGPU device after the given graphics setup.
    WgpuDevice(WgpuGraphicsSetup),
}

pub open spec fn load_plan_for(backend: Qwen3TtsBackend) -> BackendLoadPlan {
    match backend {
        Qwen3TtsBackend::Flex => BackendLoadPlan::DefaultDevice(Qwen3TtsBackend::Flex),
        Qwen3TtsBackend::Cuda => BackendLoadPlan::DefaultDevice(Qwen3TtsBackend::Cuda),
        Qwen3TtsBackend::Rocm => BackendLoadPlan::DefaultDevice(Qwen3TtsBackend::Rocm),
        Qwen3TtsBackend::Wgpu => BackendLoadPlan::WgpuDevice(WgpuGraphicsSetup::Plain),
        Qwen3TtsBackend::Metal => BackendLoadPlan::WgpuDevice(WgpuGraphicsSetup::Metal),
        Qwen3TtsBackend::Vulkan => BackendLoadPlan::WgpuDevice(WgpuGraphicsSetup::Vulkan),
        Qwen3TtsBackend::WebGpu => BackendLoadPlan::WgpuDevice(WgpuGraphicsSetup::WebGpu),
    }
}

pub open spec fn is_unavailable_error(e: Qwen3TtsLoadError, backend: Qwen3TtsBackend) -> bool {
    e matches Qwen3TtsLoadError::UnavailableBackend { backend: name } && name@ == backend_label(backend)
}

/// The error for a backend that this build does not include.
pub fn unavailable_backend_error(backend: Qwen3TtsBackend) -> (e: Qwen3TtsLoadError)
    ensures
        is_unavailable_error(e, backend),
{
    Qwen3TtsLoadError::UnavailableBackend { backend: String::from_str(backend.label()) }
}

/// Fails with the unavailable-backend error.
pub fn unavailable_backend_result<T>(backend: Qwen3TtsBackend) -> (r: Result<T, Qwen3TtsLoadError>)
    ensures
        r matches Err(e) && is_unavailable_error(e, backend),
{
    Err(unavailable_backend_error(backend))
}

/// Chooses how to load a model on `backend`: on the default device of Flex, CUDA and
/// ROCm, on the default WGPU device (with the matching graphics setup) for WGPU, Metal,
/// Vulkan and WebGPU, and an unavailable-backend error when the build lacks it.
pub fn backend_load_plan(backend: Qwen3TtsBackend, features: BackendFeatures) -> (r: Result<
    BackendLoadPlan,
    Qwen3TtsLoadError,
>)
    ensures
        backend_enabled(features, backend) ==> r == Ok::<BackendLoadPlan, Qwen3TtsLoadError>(
            load_plan_for(backend),
        ),
        !backend_enabled(features, backend) ==> (r matches Err(e) && is_unavailable_error(e, backend)),
        r is Ok ==> backend_enabled(features, backend),
        backend == Qwen3TtsBackend::Flex && features.flex ==> r == Ok::<BackendLoadPlan, Qwen3TtsLoadError>(
            BackendLoadPlan::DefaultDevice(Qwen3TtsBackend::Flex),
        ),
        backend == Qwen3TtsBackend::Cuda && features.cuda ==> r == Ok::<BackendLoadPlan, Qwen3TtsLoadError>(
            BackendLoadPlan::DefaultDevice(Qwen3TtsBackend::Cuda),
        ),
        backend == Qwen3TtsBackend::Rocm && features.rocm ==> r == Ok::<BackendLoadPlan, Qwen3TtsLoadError>(
            BackendLoadPlan::DefaultDevice(Qwen3TtsBackend::Rocm),
        ),
        backend == Qwen3TtsBackend::Wgpu && features.wgpu ==> r == Ok::<BackendLoadPlan, Qwen3TtsLoadError>(
            BackendLoadPlan::WgpuDevice(WgpuGraphicsSetup::Plain),
        ),
        backend == Qwen3TtsBackend::Metal && features.metal ==> r == Ok::<BackendLoadPlan, Qwen3TtsLoadError>(
            BackendLoadPlan::WgpuDevice(WgpuGraphicsSetup::Metal),
        ),
        backend == Qwen3TtsBackend::Vulkan && features.vulkan ==> r == Ok::<BackendLoadPlan, Qwen3TtsLoadError>(
            BackendLoadPlan::WgpuDevice(WgpuGraphicsSetup::Vulkan),
        ),
        backend == Qwen3TtsBackend::WebGpu && features.webgpu ==> r == Ok::<BackendLoadPlan, Qwen3TtsLoadError>(
            BackendLoadPlan::WgpuDevice(WgpuGraphicsSetup::WebGpu),
        ),
{
    match backend {
        Qwen3TtsBackend::Flex => {
            if features.flex {
                Ok(BackendLoadPlan::DefaultDevice(Qwen3TtsBackend::Flex))
            } else {
                unavailable_backend_result(Qwen3TtsBackend::Flex)
            }
        },
        Qwen3TtsBackend::Wgpu => {
            if features.wgpu {
                Ok(BackendLoadPlan::WgpuDevice(WgpuGraphicsSetup::Plain))
            } else {
                unavailable_backend_result(Qwen3TtsBackend::Wgpu)
            }
        },
        Qwen3TtsBackend::Cuda => {
            if features.cuda {
                Ok(BackendLoadPlan::DefaultDevice(Qwen3TtsBackend::Cuda))
            } else {
                unavailable_backend_result(Qwen3TtsBackend::Cuda)
            }
        },
        Qwen3TtsBackend::Rocm => {
            if features.rocm {
                Ok(BackendLoadPlan::DefaultDevice(Qwen3TtsBackend::Rocm))
            } else {
                unavailable_backend_result(Qwen3TtsBackend::Rocm)
            }
        },
        Qwen3TtsBackend::Metal => {
            if features.metal {
                Ok(BackendLoadPlan::WgpuDevice(WgpuGraphicsSetup::Metal))
            } else {
                unavailable_backend_result(Qwen3TtsBackend::Metal)
            }
        },
        Qwen3TtsBackend::Vulkan => {
            if features.vulkan {
                Ok(BackendLoadPlan::WgpuDevice(WgpuGraphicsSetup::Vulkan))
            } else {
                unavailable_backend_result(Qwen3TtsBackend::Vulkan)
            }
        },
        Qwen3TtsBackend::WebGpu => {
            if features.webgpu {
                Ok(BackendLoadPlan::WgpuDevice(WgpuGraphicsSetup::WebGpu))
            } else {
                unavailable_backend_result(Qwen3TtsBackend::WebGpu)
            }
        },
    }
}

/// Device law: Flex, CUDA and ROCm load on their own default device; every backend of
/// the WGPU family loads on the default WGPU device set up with the graphics API of the
/// same name, and only WGPU itself gets the plain setup.
pub proof fn lemma_load_plan_matches_backend(backend: Qwen3TtsBackend)
    ensures
        load_plan_for(Qwen3TtsBackend::Flex) == BackendLoadPlan::DefaultDevice(Qwen3TtsBackend::Flex),
        load_plan_for(Qwen3TtsBackend::Cuda) == BackendLoadPlan::DefaultDevice(Qwen3TtsBackend::Cuda),
        load_plan_for(Qwen3TtsBackend::Rocm) == BackendLoadPlan::DefaultDevice(Qwen3TtsBackend::Rocm),
        load_plan_for(Qwen3TtsBackend::Wgpu) == BackendLoadPlan::WgpuDevice(WgpuGraphicsSetup::Plain),
        load_plan_for(Qwen3TtsBackend::Metal) == BackendLoadPlan::WgpuDevice(WgpuGraphicsSetup::Metal),
        load_plan_for(Qwen3TtsBackend::Vulkan) == BackendLoadPlan::WgpuDevice(WgpuGraphicsSetup::Vulkan),
        load_plan_for(Qwen3TtsBackend::WebGpu) == BackendLoadPlan::WgpuDevice(WgpuGraphicsSetup::WebGpu),
        load_plan_for(backend) == BackendLoadPlan::WgpuDevice(WgpuGraphicsSetup::Plain) <==> backend
            == Qwen3TtsBackend::Wgpu,
        load_plan_for(backend) matches BackendLoadPlan::DefaultDevice(b) ==> b == backend,
{
}

} // verus!
