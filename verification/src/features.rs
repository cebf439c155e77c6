//! Behaviour chosen by build options, with each option passed in as a value:
//! the greeting language, the application settings and the platform line.

use vstd::prelude::*;
use crate::text::{concat2, concat3};

verus! {

/// The greeting: the localized welcome when `localized`, else "Hello, <name>!".
pub open spec fn greeting_for(name: Seq<char>, localized: bool) -> Seq<char> {
    if localized {
        "你好, "@ + name + "! 欢迎学习 Rust Cargo Features!"@
    } else {
        "Hello, "@ + name + "!"@
    }
}

/// Greets `name`, in the localized form when that option is on.
pub fn greet(name: &str, localized: bool) -> (r: String)
    ensures
        r@ == greeting_for(name@, localized),
{
    if localized {
        concat3("你好, ", name, "! 欢迎学习 Rust Cargo Features!")
    } else {
        concat3("Hello, ", name, "!")
    }
}

/// Application settings; the log level exists only when logging is on.
pub struct AppConfig {
    pub name: String,
    pub version: String,
    pub log_level: Option<String>,
}

impl AppConfig {
    /// Settings for `name` at version "0.1.0", with level "INFO" when logging is on.
    pub fn new(name: &str, logging: bool) -> (c: AppConfig)
        ensures
            c.name@ == name@,
            c.version@ == "0.1.0"@,
            logging ==> (c.log_level matches Some(l) && l@ == "INFO"@),
            !logging ==> c.log_level is None,
    {
        AppConfig {
            name: String::from_str(name),
            version: String::from_str("0.1.0"),
            log_level: if logging { Some(String::from_str("INFO")) } else { None },
        }
    }
}

/// The operating systems the platform line distinguishes.
pub enum TargetOs {
    Windows,
    Linux,
    MacOs,
    Other,
}

/// The name shown for each operating system.
pub open spec fn os_label(os: TargetOs) -> Seq<char> {
    match os {
        TargetOs::Windows => "Windows"@,
        TargetOs::Linux => "Linux"@,
        TargetOs::MacOs => "macOS"@,
        TargetOs::Other => "其他操作系统"@,
    }
}

/// "平台: <os>, 编译模式: <Debug|Release>".
pub open spec fn platform_text(os: TargetOs, debug: bool) -> Seq<char> {
    "平台: "@ + os_label(os) + ", 编译模式: "@ + (if debug { "Debug"@ } else { "Release"@ })
}

/// Describes the platform and the build mode.
pub fn platform_info(os: TargetOs, debug: bool) -> (r: String)
    ensures
        r@ == platform_text(os, debug),
{
    let label = match os {
        TargetOs::Windows => "Windows",
        TargetOs::Linux => "Linux",
        TargetOs::MacOs => "macOS",
        TargetOs::Other => "其他操作系统",
    };
    let mode = if debug { "Debug" } else { "Release" };
    let head = concat3("平台: ", label, ", 编译模式: ");
    concat2(head.as_str(), mode)
}

} // verus!
