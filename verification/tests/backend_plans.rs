use tts_qwen3_tts::backend::{
    backend_load_plan, unavailable_backend_error, unavailable_backend_result, BackendFeatures, BackendLoadPlan,
    Qwen3TtsBackend, WgpuGraphicsSetup,
};
use tts_qwen3_tts::error::{Qwen3TtsInferenceError, Qwen3TtsLoadError};

fn only(backend: Qwen3TtsBackend) -> BackendFeatures {
    BackendFeatures {
        flex: backend == Qwen3TtsBackend::Flex,
        wgpu: backend == Qwen3TtsBackend::Wgpu,
        cuda: backend == Qwen3TtsBackend::Cuda,
        rocm: backend == Qwen3TtsBackend::Rocm,
        metal: backend == Qwen3TtsBackend::Metal,
        vulkan: backend == Qwen3TtsBackend::Vulkan,
        webgpu: backend == Qwen3TtsBackend::WebGpu,
    }
}

#[test]
fn backend_labels() {
    assert_eq!(Qwen3TtsBackend::Flex.label(), "flex");
    assert_eq!(Qwen3TtsBackend::Cuda.label(), "cuda");
    assert_eq!(Qwen3TtsBackend::WebGpu.label(), "webgpu");
}

#[test]
fn unavailable_backend_error_names_the_backend() {
    let err = unavailable_backend_error(Qwen3TtsBackend::Metal);
    assert_eq!(err.to_string(), "backend is not available in this build: metal");
    let r: Result<u8, Qwen3TtsLoadError> = unavailable_backend_result(Qwen3TtsBackend::Rocm);
    match r {
        Err(Qwen3TtsLoadError::UnavailableBackend { backend }) => assert_eq!(backend, "rocm"),
        _ => panic!("expected the unavailable backend error"),
    }
}

#[test]
fn enabled_backends_get_their_device_plan() {
    assert_eq!(
        backend_load_plan(Qwen3TtsBackend::Flex, only(Qwen3TtsBackend::Flex)).unwrap(),
        BackendLoadPlan::DefaultDevice(Qwen3TtsBackend::Flex)
    );
    assert_eq!(
        backend_load_plan(Qwen3TtsBackend::Cuda, only(Qwen3TtsBackend::Cuda)).unwrap(),
        BackendLoadPlan::DefaultDevice(Qwen3TtsBackend::Cuda)
    );
    assert_eq!(
        backend_load_plan(Qwen3TtsBackend::Wgpu, only(Qwen3TtsBackend::Wgpu)).unwrap(),
        BackendLoadPlan::WgpuDevice(WgpuGraphicsSetup::Plain)
    );
    assert_eq!(
        backend_load_plan(Qwen3TtsBackend::Vulkan, only(Qwen3TtsBackend::Vulkan)).unwrap(),
        BackendLoadPlan::WgpuDevice(WgpuGraphicsSetup::Vulkan)
    );
}

#[test]
fn disabled_backend_is_refused() {
    let err = backend_load_plan(Qwen3TtsBackend::Cuda, only(Qwen3TtsBackend::Flex)).unwrap_err();
    assert_eq!(err.to_string(), "backend is not available in this build: cuda");
}

#[test]
fn inference_error_message_is_its_text() {
    let e = Qwen3TtsInferenceError::TensorRead { message: String::from("device lost") };
    assert_eq!(e.to_string(), "device lost");
    let e = Qwen3TtsLoadError::InvalidModelDir { message: String::from("missing config.json") };
    assert_eq!(e.to_string(), "missing config.json");
}
