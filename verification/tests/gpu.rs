use handy::gpu::{
    get_available_gpu_providers, gpu_provider_to_string, is_ort_engine, parse_gpu_provider,
    provider_names, EngineType, GpuProvider,
};

const ALL: [GpuProvider; 6] = [
    GpuProvider::Auto,
    GpuProvider::CpuOnly,
    GpuProvider::DirectMl,
    GpuProvider::Cuda,
    GpuProvider::CoreMl,
    GpuProvider::WebGpu,
];

#[test]
fn parses_every_settings_name() {
    assert_eq!(parse_gpu_provider("auto"), Ok(GpuProvider::Auto));
    assert_eq!(parse_gpu_provider("cpu"), Ok(GpuProvider::CpuOnly));
    assert_eq!(parse_gpu_provider("directml"), Ok(GpuProvider::DirectMl));
    assert_eq!(parse_gpu_provider("cuda"), Ok(GpuProvider::Cuda));
    assert_eq!(parse_gpu_provider("coreml"), Ok(GpuProvider::CoreMl));
    assert_eq!(parse_gpu_provider("webgpu"), Ok(GpuProvider::WebGpu));
}

#[test]
fn rejects_unknown_names_with_message() {
    assert_eq!(
        parse_gpu_provider("rocm"),
        Err("Unknown GPU provider: rocm".to_string())
    );
    assert_eq!(
        parse_gpu_provider("CUDA"),
        Err("Unknown GPU provider: CUDA".to_string())
    );
    assert_eq!(parse_gpu_provider(""), Err("Unknown GPU provider: ".to_string()));
}

#[test]
fn names_round_trip() {
    for p in ALL {
        assert_eq!(parse_gpu_provider(gpu_provider_to_string(p)), Ok(p));
    }
    assert_eq!(gpu_provider_to_string(GpuProvider::CpuOnly), "cpu");
    assert_eq!(gpu_provider_to_string(GpuProvider::WebGpu), "webgpu");
}

#[test]
fn only_onnx_engines_follow_provider() {
    assert!(is_ort_engine(&EngineType::Parakeet));
    assert!(is_ort_engine(&EngineType::Moonshine));
    assert!(is_ort_engine(&EngineType::SenseVoice));
    assert!(is_ort_engine(&EngineType::Qwen3));
    assert!(!is_ort_engine(&EngineType::Whisper));
    assert!(!is_ort_engine(&EngineType::Other));
}

#[test]
fn provider_names_skip_unknown_entries() {
    let names = provider_names(&vec![
        Some(GpuProvider::CpuOnly),
        None,
        Some(GpuProvider::Cuda),
    ]);
    assert_eq!(names, vec!["cpu".to_string(), "cuda".to_string()]);
    assert!(provider_names(&vec![]).is_empty());
}

#[test]
fn available_providers_include_cpu() {
    let names = get_available_gpu_providers();
    assert_eq!(names[0], "cpu");
    for n in &names {
        assert!(parse_gpu_provider(n).is_ok());
    }
}
