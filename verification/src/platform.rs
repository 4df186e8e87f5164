//! The platforms and processor architectures that releases are built for.

use crate::text::{field, line, push_field, push_line, same_text};
use vstd::prelude::*;

verus! {

/// Why a platform or an architecture was refused.
#[derive(Debug, PartialEq, Eq)]
pub enum PlatformError {
    UnsupportedPlatform { detected: String },
    UnsupportedArchitecture { detected: String },
}

/// The mathematical value of such an error.
pub enum PlatformErrorView {
    UnsupportedPlatform { detected: Seq<char> },
    UnsupportedArchitecture { detected: Seq<char> },
}

impl View for PlatformError {
    type V = PlatformErrorView;

    open spec fn view(&self) -> PlatformErrorView {
        match self {
            PlatformError::UnsupportedPlatform { detected } => {
                PlatformErrorView::UnsupportedPlatform { detected: detected@ }
            },
            PlatformError::UnsupportedArchitecture { detected } => {
                PlatformErrorView::UnsupportedArchitecture { detected: detected@ }
            },
        }
    }
}

impl PlatformErrorView {
    /// The message that tells the user what went wrong and what to try.
    pub open spec fn message(self) -> Seq<char> {
        let m = Seq::<char>::empty();
        match self {
            PlatformErrorView::UnsupportedPlatform { detected } => {
                let m = line(m, "Unsupported platform"@);
                let m = field(m, "  Detected: "@, detected);
                let m = line(m, "  Supported: linux, macos"@);
                let m = line(m, ""@);
                let m = line(m, "  If you're on a supported platform, this may be a detection issue."@);
                line(m, "  Try using --platform flag to override (linux, darwin)"@)
            },
            PlatformErrorView::UnsupportedArchitecture { detected } => {
                let m = line(m, "Unsupported architecture"@);
                let m = field(m, "  Detected: "@, detected);
                let m = line(m, "  Supported: x86_64, aarch64 (arm64)"@);
                let m = line(m, ""@);
                let m = line(m, "  If you're on a supported architecture, this may be a detection issue."@);
                line(m, "  Try using --arch flag to override (x86_64, aarch64)"@)
            },
        }
    }
}

impl PlatformError {
    /// The message that tells the user what went wrong and what to try.
    pub fn message(&self) -> (text: String)
        ensures
            text@ == self@.message(),
    {
        let mut m = String::new();
        match self {
            PlatformError::UnsupportedPlatform { detected } => {
                push_line(&mut m, "Unsupported platform");
                push_field(&mut m, "  Detected: ", detected.as_str());
                push_line(&mut m, "  Supported: linux, macos");
                push_line(&mut m, "");
                push_line(&mut m, "  If you're on a supported platform, this may be a detection issue.");
                push_line(&mut m, "  Try using --platform flag to override (linux, darwin)");
            },
            PlatformError::UnsupportedArchitecture { detected } => {
                push_line(&mut m, "Unsupported architecture");
                push_field(&mut m, "  Detected: ", detected.as_str());
                push_line(&mut m, "  Supported: x86_64, aarch64 (arm64)");
                push_line(&mut m, "");
                push_line(&mut m, "  If you're on a supported architecture, this may be a detection issue.");
                push_line(&mut m, "  Try using --arch flag to override (x86_64, aarch64)");
            },
        }
        m
    }
}

/// Supported platforms.
#[derive(Debug, Clone, Copy, PartialEq, Eq, Structural)]
pub enum Platform {
    Linux,
    Darwin,
}

/// Supported architectures.
#[derive(Debug, Clone, Copy, PartialEq, Eq, Structural)]
pub enum Architecture {
    X86_64,
    Aarch64,
}

/// The platform that an operating system name stands for.
pub open spec fn platform_of_os(os: Seq<char>) -> Option<Platform> {
    if os == "linux"@ {
        Some(Platform::Linux)
    } else if os == "macos"@ {
        Some(Platform::Darwin)
    } else {
        None
    }
}

/// The platform that a name in an artifact stands for.
pub open spec fn platform_of_name(name: Seq<char>) -> Option<Platform> {
    if name == "linux"@ {
        Some(Platform::Linux)
    } else if name == "darwin"@ {
        Some(Platform::Darwin)
    } else {
        None
    }
}

/// The architecture that a name stands for.
pub open spec fn architecture_of(name: Seq<char>) -> Option<Architecture> {
    if name == "x86_64"@ || name == "amd64"@ {
        Some(Architecture::X86_64)
    } else if name == "aarch64"@ || name == "arm64"@ {
        Some(Architecture::Aarch64)
    } else {
        None
    }
}

impl Platform {
    /// The platform string in artifact names.
    pub open spec fn name(self) -> Seq<char> {
        match self {
            Platform::Linux => "linux"@,
            Platform::Darwin => "darwin"@,
        }
    }

    /// The platform for the operating system that the program was built
    /// for, as the standard library names it.
    pub fn detect(os: &str) -> (r: Result<Platform, PlatformError>)
        ensures
            match r {
                Ok(platform) => platform_of_os(os@) == Some(platform),
                Err(e) => platform_of_os(os@) is None && e@
                    == (PlatformErrorView::UnsupportedPlatform { detected: os@ }),
            },
    {
        if same_text(os, "linux") {
            Ok(Platform::Linux)
        } else if same_text(os, "macos") {
            Ok(Platform::Darwin)
        } else {
            Err(PlatformError::UnsupportedPlatform { detected: String::from_str(os) })
        }
    }

    /// The platform that the user asked for by name.
    pub fn parse(name: &str) -> (r: Result<Platform, PlatformError>)
        ensures
            match r {
                Ok(platform) => platform_of_name(name@) == Some(platform),
                Err(e) => platform_of_name(name@) is None && e@
                    == (PlatformErrorView::UnsupportedPlatform { detected: name@ }),
            },
    {
        if same_text(name, "linux") {
            Ok(Platform::Linux)
        } else if same_text(name, "darwin") {
            Ok(Platform::Darwin)
        } else {
            Err(PlatformError::UnsupportedPlatform { detected: String::from_str(name) })
        }
    }

    /// The platform string in artifact names.
    pub fn as_str(&self) -> (r: &'static str)
        ensures
            r@ == self.name(),
    {
        match self {
            Platform::Linux => "linux",
            Platform::Darwin => "darwin",
        }
    }
}

impl Architecture {
    /// The architecture string in artifact names.
    pub open spec fn name(self) -> Seq<char> {
        match self {
            Architecture::X86_64 => "x86_64"@,
            Architecture::Aarch64 => "aarch64"@,
        }
    }

    /// The architecture that a name stands for, be it the one that the
    /// program was built for or one that the user asked for.
    pub fn detect(arch: &str) -> (r: Result<Architecture, PlatformError>)
        ensures
            match r {
                Ok(architecture) => architecture_of(arch@) == Some(architecture),
                Err(e) => architecture_of(arch@) is None && e@
                    == (PlatformErrorView::UnsupportedArchitecture { detected: arch@ }),
            },
    {
        if same_text(arch, "x86_64") || same_text(arch, "amd64") {
            Ok(Architecture::X86_64)
        } else if same_text(arch, "aarch64") || same_text(arch, "arm64") {
            Ok(Architecture::Aarch64)
        } else {
            Err(PlatformError::UnsupportedArchitecture { detected: String::from_str(arch) })
        }
    }

    /// The architecture string in artifact names.
    pub fn as_str(&self) -> (r: &'static str)
        ensures
            r@ == self.name(),
    {
        match self {
            Architecture::X86_64 => "x86_64",
            Architecture::Aarch64 => "aarch64",
        }
    }
}

/// The name of a release artifact: the binary, the platform and the
/// architecture, joined by hyphens.
pub open spec fn artifact(binary: Seq<char>, platform: Platform, arch: Architecture) -> Seq<char> {
    binary + "-"@ + platform.name() + "-"@ + arch.name()
}

/// The name of a release artifact.
pub fn artifact_name(binary: &str, platform: Platform, arch: Architecture) -> (r: String)
    ensures
        r@ == artifact(binary@, platform, arch),
{
    let mut r = String::from_str(binary);
    r.append("-");
    r.append(platform.as_str());
    r.append("-");
    r.append(arch.as_str());
    r
}

} // verus!
