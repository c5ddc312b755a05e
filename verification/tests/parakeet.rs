use voxtype::setup::parakeet::{
    backend_status, detect_available_backends, first_installed_whisper, is_parakeet_binary_name,
    parakeet_backend_of_binary, preferred_whisper_binary, select_best_backend, select_installed,
    usage_hint, whisper_backend_of_binary, ParakeetBackend, UsageHint,
};

#[test]
fn test_parakeet_backend_binary_names() {
    assert_eq!(ParakeetBackend::Avx2.binary_name(), "voxtype-onnx-avx2");
    assert_eq!(ParakeetBackend::Avx512.binary_name(), "voxtype-onnx-avx512");
    assert_eq!(ParakeetBackend::Cuda.binary_name(), "voxtype-onnx-cuda");
    assert_eq!(ParakeetBackend::Rocm.binary_name(), "voxtype-onnx-rocm");
    assert_eq!(ParakeetBackend::Custom.binary_name(), "voxtype-onnx");
}

#[test]
fn test_parakeet_backend_display_names() {
    assert_eq!(ParakeetBackend::Avx2.display_name(), "ONNX (AVX2)");
    assert_eq!(ParakeetBackend::Avx512.display_name(), "ONNX (AVX-512)");
    assert_eq!(ParakeetBackend::Cuda.display_name(), "ONNX (CUDA)");
    assert_eq!(ParakeetBackend::Rocm.display_name(), "ONNX (ROCm)");
    assert_eq!(ParakeetBackend::Custom.display_name(), "ONNX (Custom)");
}

#[test]
fn test_parakeet_whisper_equivalents() {
    assert_eq!(ParakeetBackend::Avx2.whisper_equivalent(), "voxtype-avx2");
    assert_eq!(ParakeetBackend::Avx512.whisper_equivalent(), "voxtype-avx512");
    assert_eq!(ParakeetBackend::Cuda.whisper_equivalent(), "voxtype-vulkan");
    assert_eq!(ParakeetBackend::Rocm.whisper_equivalent(), "voxtype-vulkan");
    assert_eq!(ParakeetBackend::Custom.whisper_equivalent(), "voxtype-native");
}

#[test]
fn test_detect_available_backends_returns_vec() {
    let backends = detect_available_backends();
    assert!(backends.len() <= 5);
}

#[test]
fn test_backend_enum_equality() {
    assert_eq!(ParakeetBackend::Avx2, ParakeetBackend::Avx2);
    assert_ne!(ParakeetBackend::Avx2, ParakeetBackend::Avx512);
    assert_ne!(ParakeetBackend::Avx512, ParakeetBackend::Cuda);
}

#[test]
fn test_backend_clone() {
    let backend = ParakeetBackend::Cuda;
    let cloned = backend;
    assert_eq!(backend, cloned);
}

#[test]
fn binary_paths_and_names() {
    assert_eq!(ParakeetBackend::Rocm.binary_path(), "/usr/lib/voxtype/voxtype-onnx-rocm");
    assert!(is_parakeet_binary_name("voxtype-onnx-avx2"));
    assert!(is_parakeet_binary_name("voxtype-parakeet-cuda"));
    assert!(!is_parakeet_binary_name("voxtype-vulkan"));
    assert_eq!(parakeet_backend_of_binary("voxtype-parakeet-avx512"), Some(ParakeetBackend::Avx512));
    assert_eq!(parakeet_backend_of_binary("voxtype-onnx"), Some(ParakeetBackend::Custom));
    assert_eq!(parakeet_backend_of_binary("voxtype-avx2"), None);
    assert_eq!(whisper_backend_of_binary("voxtype-native"), Some("voxtype-native"));
    assert_eq!(whisper_backend_of_binary("voxtype-onnx"), None);
}

#[test]
fn best_backend_preferences() {
    let all = select_installed(&vec![true, true, true, true, true]);
    assert_eq!(all.len(), 5);
    assert_eq!(select_best_backend(&all, true, true, true), Some(ParakeetBackend::Cuda));
    assert_eq!(select_best_backend(&all, false, true, true), Some(ParakeetBackend::Rocm));
    assert_eq!(select_best_backend(&all, false, false, true), Some(ParakeetBackend::Avx512));
    assert_eq!(select_best_backend(&all, false, false, false), Some(ParakeetBackend::Avx2));
    let gpu_only = select_installed(&vec![false, false, true, false, false]);
    assert_eq!(select_best_backend(&gpu_only, false, false, false), Some(ParakeetBackend::Cuda));
    assert_eq!(select_best_backend(&Vec::new(), true, true, true), None);
}

#[test]
fn whisper_fallbacks_and_status() {
    assert_eq!(preferred_whisper_binary(None), "voxtype-avx2");
    assert_eq!(preferred_whisper_binary(Some(ParakeetBackend::Cuda)), "voxtype-vulkan");
    assert_eq!(first_installed_whisper(&vec![false, false, true, true]), Some("voxtype-vulkan"));
    assert_eq!(first_installed_whisper(&vec![false, false, false, false]), None);
    assert_eq!(backend_status(true, true), "active");
    assert_eq!(backend_status(true, false), "installed");
    assert_eq!(backend_status(false, false), "not installed");
}

#[test]
fn usage_hint_follows_engine_and_installed_backends() {
    assert_eq!(usage_hint(true, true), Some(UsageHint::SwitchToWhisper));
    assert_eq!(usage_hint(true, false), Some(UsageHint::SwitchToWhisper));
    assert_eq!(usage_hint(false, true), Some(UsageHint::EnableOnnx));
    assert_eq!(usage_hint(false, false), None);
}
