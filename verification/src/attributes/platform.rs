//! Line endings and path separators of the target platform.

use vstd::prelude::*;

verus! {

/// "\r\n" on Windows, "\n" elsewhere.
pub fn get_line_ending(windows: bool) -> (r: &'static str)
    ensures
        r@ == (if windows { "\r\n"@ } else { "\n"@ }),
{
    if windows {
        "\r\n"
    } else {
        "\n"
    }
}

/// '\\' on Windows, '/' elsewhere.
pub fn get_path_separator(windows: bool) -> (r: char)
    ensures
        r == (if windows { '\\' } else { '/' }),
{
    if windows {
        '\\'
    } else {
        '/'
    }
}

/// The operating systems told apart at build time.
pub enum Os {
    Windows,
    Linux,
    MacOs,
    Other,
}

/// The processor architectures told apart at build time.
pub enum Arch {
    X86_64,
    Aarch64,
    Other,
}

/// The name of the operating system.
pub fn get_os_name(os: Os) -> (r: &'static str)
    ensures
        r@ == match os {
            Os::Windows => "Windows"@,
            Os::Linux => "Linux"@,
            Os::MacOs => "macOS"@,
            Os::Other => "Unknown OS"@,
        },
{
    match os {
        Os::Windows => "Windows",
        Os::Linux => "Linux",
        Os::MacOs => "macOS",
        Os::Other => "Unknown OS",
    }
}

/// The name of the architecture.
pub fn get_arch(arch: Arch) -> (r: &'static str)
    ensures
        r@ == match arch {
            Arch::X86_64 => "x86_64"@,
            Arch::Aarch64 => "aarch64 (ARM64)"@,
            Arch::Other => "其他架构"@,
        },
{
    match arch {
        Arch::X86_64 => "x86_64",
        Arch::Aarch64 => "aarch64 (ARM64)",
        Arch::Other => "其他架构",
    }
}

/// The feature line, which depends on being Windows on x86_64.
pub fn platform_specific(windows_x86_64: bool) -> (r: &'static str)
    ensures
        r@ == (if windows_x86_64 { "Windows x86_64 专用功能"@ } else { "非 Windows x86_64 平台"@ }),
{
    if windows_x86_64 {
        "Windows x86_64 专用功能"
    } else {
        "非 Windows x86_64 平台"
    }
}

} // verus!
