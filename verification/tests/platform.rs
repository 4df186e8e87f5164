use ampup::platform::{artifact_name, Architecture, Platform, PlatformError};

#[test]
fn test_platform_detect() {
    let platform = Platform::detect("linux");
    assert!(platform.is_ok());
}

#[test]
fn test_arch_detect() {
    let arch = Architecture::detect("x86_64");
    assert!(arch.is_ok());
}

#[test]
fn platform_names() {
    assert_eq!(Platform::detect("linux").unwrap(), Platform::Linux);
    assert_eq!(Platform::detect("macos").unwrap(), Platform::Darwin);
    assert!(Platform::detect("darwin").is_err());
    assert_eq!(Platform::parse("darwin").unwrap(), Platform::Darwin);
    assert_eq!(Platform::parse("linux").unwrap(), Platform::Linux);
    assert!(Platform::parse("macos").is_err());
    assert_eq!(Platform::Linux.as_str(), "linux");
    assert_eq!(Platform::Darwin.as_str(), "darwin");
}

#[test]
fn architecture_names() {
    assert_eq!(Architecture::detect("x86_64").unwrap(), Architecture::X86_64);
    assert_eq!(Architecture::detect("amd64").unwrap(), Architecture::X86_64);
    assert_eq!(Architecture::detect("aarch64").unwrap(), Architecture::Aarch64);
    assert_eq!(Architecture::detect("arm64").unwrap(), Architecture::Aarch64);
    assert_eq!(Architecture::X86_64.as_str(), "x86_64");
    assert_eq!(Architecture::Aarch64.as_str(), "aarch64");
    match Architecture::detect("riscv64") {
        Err(PlatformError::UnsupportedArchitecture { detected }) => assert_eq!(detected, "riscv64"),
        _ => panic!("riscv64 is not supported"),
    }
}

#[test]
fn unsupported_platform_message() {
    let e = Platform::detect("windows").unwrap_err();
    assert_eq!(
        e.message(),
        "Unsupported platform\n  Detected: windows\n  Supported: linux, macos\n\n  If you're on a supported platform, this may be a detection issue.\n  Try using --platform flag to override (linux, darwin)\n"
    );
    let e = Architecture::detect("mips").unwrap_err();
    assert_eq!(
        e.message(),
        "Unsupported architecture\n  Detected: mips\n  Supported: x86_64, aarch64 (arm64)\n\n  If you're on a supported architecture, this may be a detection issue.\n  Try using --arch flag to override (x86_64, aarch64)\n"
    );
}

#[test]
fn artifact_names() {
    assert_eq!(artifact_name("ampd", Platform::Linux, Architecture::X86_64), "ampd-linux-x86_64");
    assert_eq!(artifact_name("ampctl", Platform::Darwin, Architecture::Aarch64), "ampctl-darwin-aarch64");
}
