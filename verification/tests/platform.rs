use system_benchmark::platform::detect_backend;
use system_benchmark::platform::AcceleratorBackend;

fn backend(arch: Option<&str>, os: &str) -> AcceleratorBackend {
    detect_backend(&arch.map(|name| name.to_string()), &os.to_string())
}

#[test]
fn apple_silicon_takes_the_unified_path() {
    assert_eq!(backend(Some("arm64"), "macos"), AcceleratorBackend::IntegratedUnified);
}

#[test]
fn every_other_host_takes_the_discrete_path() {
    assert_eq!(backend(Some("x86_64"), "linux"), AcceleratorBackend::Discrete);
    assert_eq!(backend(Some("arm64"), "linux"), AcceleratorBackend::Discrete);
    assert_eq!(backend(Some("x86_64"), "macos"), AcceleratorBackend::Discrete);
}

#[test]
fn an_unknown_architecture_takes_the_discrete_path() {
    assert_eq!(backend(None, "macos"), AcceleratorBackend::Discrete);
    assert_eq!(backend(None, "linux"), AcceleratorBackend::Discrete);
}

#[test]
fn names_are_compared_letter_for_letter() {
    assert_eq!(backend(Some("ARM64"), "macos"), AcceleratorBackend::Discrete);
    assert_eq!(backend(Some("arm64"), "MacOS"), AcceleratorBackend::Discrete);
    assert_eq!(backend(Some("arm64 "), "macos"), AcceleratorBackend::Discrete);
    assert_eq!(backend(Some("aarch64"), "macos"), AcceleratorBackend::Discrete);
    assert_eq!(backend(Some(""), ""), AcceleratorBackend::Discrete);
}
