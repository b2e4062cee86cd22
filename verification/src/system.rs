//! Platform resolution: from the host's family, system and architecture to one
//! of the supported platforms, its identifier and its archive extension.

use crate::errors::{plain, Failure, FailureModel, ImageConfigError};
use crate::text::same_text;
use vstd::prelude::*;

verus! {

/// A supported platform.
#[derive(Debug, Clone, Copy, PartialEq, Eq, Structural, Hash)]
pub enum System {
    MacOS,
    WindowsX86_64,
    WindowsAArch64,
    LinuxX86_64,
    LinuxAArch64,
}

/// The platform a builder was asked for: a fixed one, or `Any` for the host's.
#[derive(Debug, Clone, Copy, PartialEq, Eq, Structural, Hash)]
pub enum SysType {
    Any,
    MacOS,
    WindowsX86_64,
    WindowsAArch64,
    LinuxX86_64,
    LinuxAArch64,
}

/// The mapping table. A macOS host is supported on every architecture, since
/// its artifact is built for all of them. A Linux or Windows host is supported
/// on the two architectures listed. Any other host has no platform.
pub open spec fn host_system(family: Seq<char>, os: Seq<char>, arch: Seq<char>) -> Option<System> {
    if family == "unix"@ && os == "macos"@ {
        Some(System::MacOS)
    } else if family == "windows"@ && os == "windows"@ && arch == "x86_64"@ {
        Some(System::WindowsX86_64)
    } else if family == "windows"@ && os == "windows"@ && arch == "aarch64"@ {
        Some(System::WindowsAArch64)
    } else if family == "unix"@ && os == "linux"@ && arch == "x86_64"@ {
        Some(System::LinuxX86_64)
    } else if family == "unix"@ && os == "linux"@ && arch == "aarch64"@ {
        Some(System::LinuxAArch64)
    } else {
        None
    }
}

/// How a host is named in a failure: its system and its architecture.
pub open spec fn host_name(os: Seq<char>, arch: Seq<char>) -> Seq<char> {
    os + "/"@ + arch
}

/// The platform of a host, or the failure that names the host.
pub open spec fn resolved_host(family: Seq<char>, os: Seq<char>, arch: Seq<char>) -> Result<
    System,
    FailureModel<ImageConfigError>,
> {
    match host_system(family, os, arch) {
        Some(sys) => Ok(sys),
        None => Err(
            FailureModel {
                error: ImageConfigError::UnsupportedArchError,
                subject: host_name(os, arch),
            },
        ),
    }
}

impl System {
    /// The identifier used in artifact file names.
    pub open spec fn identifier(self) -> Seq<char> {
        match self {
            System::MacOS => "darwin-all"@,
            System::LinuxX86_64 => "linux-amd64"@,
            System::LinuxAArch64 => "linux-arm64"@,
            System::WindowsX86_64 => "windows-amd64"@,
            System::WindowsAArch64 => "windows-arm64"@,
        }
    }

    /// The archive extension of the platform's artifact.
    pub open spec fn archive_extension(self) -> Seq<char> {
        match self {
            System::MacOS => "zip"@,
            _ => "tar.gz"@,
        }
    }

    /// Resolves the host: the platform that `host_system` lists for the three
    /// values, and, where it lists none, `UnsupportedArchError` with the
    /// host's system and architecture as its subject.
    pub fn parse(family: &str, os: &str, arch: &str) -> (r: Result<
        System,
        Failure<ImageConfigError>,
    >)
        ensures
            plain(r) == resolved_host(family@, os@, arch@),
    {
        proof {
            distinct_names();
        }
        let x86 = same_text(arch, "x86_64");
        let arm = same_text(arch, "aarch64");
        if same_text(family, "unix") {
            if same_text(os, "macos") {
                return Ok(System::MacOS);
            }
            if same_text(os, "linux") && x86 {
                return Ok(System::LinuxX86_64);
            }
            if same_text(os, "linux") && arm {
                return Ok(System::LinuxAArch64);
            }
        } else if same_text(family, "windows") && same_text(os, "windows") {
            if x86 {
                return Ok(System::WindowsX86_64);
            }
            if arm {
                return Ok(System::WindowsAArch64);
            }
        }
        let mut subject = String::from_str(os);
        subject.append("/");
        subject.append(arch);
        Err(Failure { error: ImageConfigError::UnsupportedArchError, subject })
    }

    /// The identifier used in artifact file names.
    pub fn as_ref(&self) -> (name: &'static str)
        ensures
            name@ == self.identifier(),
    {
        match self {
            System::MacOS => "darwin-all",
            System::LinuxX86_64 => "linux-amd64",
            System::LinuxAArch64 => "linux-arm64",
            System::WindowsX86_64 => "windows-amd64",
            System::WindowsAArch64 => "windows-arm64",
        }
    }

    /// The archive extension of the platform's artifact.
    pub fn extension(&self) -> (ext: &'static str)
        ensures
            ext@ == self.archive_extension(),
    {
        match self {
            System::MacOS => "zip",
            _ => "tar.gz",
        }
    }
}

impl SysType {
    /// The platform this choice resolves to on the given host.
    pub open spec fn resolved(self, family: Seq<char>, os: Seq<char>, arch: Seq<char>) -> Result<
        System,
        FailureModel<ImageConfigError>,
    > {
        match self {
            SysType::Any => resolved_host(family, os, arch),
            SysType::MacOS => Ok(System::MacOS),
            SysType::WindowsX86_64 => Ok(System::WindowsX86_64),
            SysType::WindowsAArch64 => Ok(System::WindowsAArch64),
            SysType::LinuxX86_64 => Ok(System::LinuxX86_64),
            SysType::LinuxAArch64 => Ok(System::LinuxAArch64),
        }
    }

    /// Resolves the choice: a fixed platform stands as it is, whatever the
    /// host; `Any` is resolved from the host's three values.
    pub fn build(self, family: &str, os: &str, arch: &str) -> (r: Result<
        System,
        Failure<ImageConfigError>,
    >)
        ensures
            plain(r) == self.resolved(family@, os@, arch@),
    {
        match self {
            SysType::Any => System::parse(family, os, arch),
            SysType::MacOS => Ok(System::MacOS),
            SysType::WindowsX86_64 => Ok(System::WindowsX86_64),
            SysType::WindowsAArch64 => Ok(System::WindowsAArch64),
            SysType::LinuxX86_64 => Ok(System::LinuxX86_64),
            SysType::LinuxAArch64 => Ok(System::LinuxAArch64),
        }
    }
}

/// The names that the mapping table compares against differ from one another.
proof fn distinct_names()
    ensures
        "unix"@ != "windows"@,
        "macos"@ != "linux"@,
        "x86_64"@ != "aarch64"@,
{
    reveal_strlit("unix");
    reveal_strlit("windows");
    reveal_strlit("macos");
    reveal_strlit("linux");
    reveal_strlit("x86_64");
    reveal_strlit("aarch64");
    assert("unix"@.len() != "windows"@.len());
    assert("macos"@[0] != "linux"@[0]);
    assert("x86_64"@[0] != "aarch64"@[0]);
}

} // verus!
