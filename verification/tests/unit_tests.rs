use run_this::platform::{detect_os, policy_for, Platform, ResolutionPolicy};

#[test]
fn test_detect_os() {
    assert_eq!(detect_os("windows"), Platform::Windows);
    assert_eq!(detect_os("macos"), Platform::MacOS);
    assert_eq!(detect_os("linux"), Platform::Linux);
}

#[test]
fn test_platform_equality() {
    assert_eq!(Platform::Windows, Platform::Windows);
    assert_eq!(Platform::MacOS, Platform::MacOS);
    assert_eq!(Platform::Linux, Platform::Linux);
    assert_eq!(Platform::Unknown, Platform::Unknown);

    assert_ne!(Platform::Windows, Platform::MacOS);
    assert_ne!(Platform::Windows, Platform::Linux);
    assert_ne!(Platform::Windows, Platform::Unknown);
    assert_ne!(Platform::MacOS, Platform::Linux);
    assert_ne!(Platform::MacOS, Platform::Unknown);
    assert_ne!(Platform::Linux, Platform::Unknown);
}

#[test]
fn unrecognised_identifiers_are_unknown() {
    assert_eq!(detect_os(""), Platform::Unknown);
    assert_eq!(detect_os("freebsd"), Platform::Unknown);
    assert_eq!(detect_os("Linux"), Platform::Unknown);
    assert_eq!(detect_os("linux "), Platform::Unknown);
    assert_eq!(detect_os("windows10"), Platform::Unknown);
    assert_eq!(detect_os("mac"), Platform::Unknown);
}

#[test]
fn only_windows_resolves_by_extension() {
    assert_eq!(policy_for(Platform::Windows), ResolutionPolicy::ExtensionSuffix);
    assert_eq!(policy_for(Platform::MacOS), ResolutionPolicy::DirectLookup);
    assert_eq!(policy_for(Platform::Linux), ResolutionPolicy::DirectLookup);
    assert_eq!(policy_for(Platform::Unknown), ResolutionPolicy::DirectLookup);
}
