//! Per-platform install conventions, keyed by host family and platform.
//!
//! The table is a pure lookup supplied with a runtime host-family and
//! pointer-width parameter, so the core stays portable and the unsupported
//! case is a recoverable error rather than an abort.

use vstd::prelude::*;

use crate::error::ConfigError;
use crate::platform::Platform;
use crate::strutil::opt_str_view;

verus! {

/// The host operating-system families with table entries.
#[derive(Clone, Copy, PartialEq, Eq, Structural, Debug)]
pub enum OsFamily {
    Windows,
    Linux,
    MacOs,
}

/// Install conventions for one platform on one host family.
#[derive(Clone, PartialEq, Eq)]
pub struct EnvConfig {
    /// Install root of the dependent third-party product.
    pub home_1c: String,
    /// Redistributable installer artifact, where the host needs one.
    pub redist: Option<String>,
    /// Web-server bundle artifact name.
    pub httpd: String,
    /// Directory name the web-server bundle unpacks into.
    pub httpd_dir: String,
}

/// The mathematical content of an `EnvConfig`.
pub ghost struct EnvData {
    pub home_1c: Seq<char>,
    pub redist: Option<Seq<char>>,
    pub httpd: Seq<char>,
    pub httpd_dir: Seq<char>,
}

impl EnvConfig {
    /// The record's content as a mathematical value.
    pub open spec fn data(&self) -> EnvData {
        EnvData {
            home_1c: self.home_1c@,
            redist: opt_str_view(self.redist),
            httpd: self.httpd@,
            httpd_dir: self.httpd_dir@,
        }
    }
}

/// The full environment table: which (host family, platform) pairs are
/// supported, and with exactly which values.
pub open spec fn env_table(os: OsFamily, p: Platform) -> Option<EnvData> {
    match (os, p) {
        (OsFamily::Windows, Platform::X64) => Some(
            EnvData {
                home_1c: "C:\\Program Files\\1cv8\\"@,
                redist: Some("vc_redist.x64.exe"@),
                httpd: "httpd-2.4.61-240703-win64-VS17.zip"@,
                httpd_dir: "httpd-x64"@,
            },
        ),
        (OsFamily::Windows, Platform::X32) => Some(
            EnvData {
                home_1c: "C:\\Program Files (x86)\\1cv8"@,
                redist: Some("vc_redist.x86.exe"@),
                httpd: "httpd-2.4.61-240703-win32-vs17.zip"@,
                httpd_dir: "httpd-x32"@,
            },
        ),
        (OsFamily::Linux, Platform::X64) => Some(
            EnvData {
                home_1c: "/opt/1C"@,
                redist: None,
                httpd: "httpd-2.4.62-linux.zip"@,
                httpd_dir: "httpd-x64"@,
            },
        ),
        (OsFamily::MacOs, Platform::X64) => Some(
            EnvData {
                home_1c: "/Applications/1C"@,
                redist: None,
                httpd: "httpd-2.4.62-macos.zip"@,
                httpd_dir: "httpd-x64"@,
            },
        ),
        _ => None,
    }
}

impl EnvConfig {
    /// Looks up the install conventions for `platform` on host family `os`.
    /// Succeeds exactly on the pairs the table holds; an unsupported pair is
    /// a recoverable error.
    pub fn environment_for(os: OsFamily, platform: Platform) -> (r: Result<
        EnvConfig,
        ConfigError,
    >)
        ensures
            r is Ok <==> env_table(os, platform) is Some,
            r matches Ok(e) ==> env_table(os, platform) == Some(e.data()),
            r matches Err(e) ==> e == ConfigError::UnsupportedPlatform,
    {
        match (os, platform) {
            (OsFamily::Windows, Platform::X64) => Ok(
                EnvConfig {
                    home_1c: String::from_str("C:\\Program Files\\1cv8\\"),
                    redist: Some(String::from_str("vc_redist.x64.exe")),
                    httpd: String::from_str("httpd-2.4.61-240703-win64-VS17.zip"),
                    httpd_dir: String::from_str("httpd-x64"),
                },
            ),
            (OsFamily::Windows, Platform::X32) => Ok(
                EnvConfig {
                    home_1c: String::from_str("C:\\Program Files (x86)\\1cv8"),
                    redist: Some(String::from_str("vc_redist.x86.exe")),
                    httpd: String::from_str("httpd-2.4.61-240703-win32-vs17.zip"),
                    httpd_dir: String::from_str("httpd-x32"),
                },
            ),
            (OsFamily::Linux, Platform::X64) => Ok(
                EnvConfig {
                    home_1c: String::from_str("/opt/1C"),
                    redist: None,
                    httpd: String::from_str("httpd-2.4.62-linux.zip"),
                    httpd_dir: String::from_str("httpd-x64"),
                },
            ),
            (OsFamily::MacOs, Platform::X64) => Ok(
                EnvConfig {
                    home_1c: String::from_str("/Applications/1C"),
                    redist: None,
                    httpd: String::from_str("httpd-2.4.62-macos.zip"),
                    httpd_dir: String::from_str("httpd-x64"),
                },
            ),
            _ => Err(ConfigError::UnsupportedPlatform),
        }
    }

    /// The entry for the running process: the platform is chosen by the
    /// native pointer width the caller reports.
    pub fn native(os: OsFamily, pointer_width_64: bool) -> (r: Result<EnvConfig, ConfigError>)
        ensures
            r is Ok <==> env_table(
                os,
                if pointer_width_64 {
                    Platform::X64
                } else {
                    Platform::X32
                },
            ) is Some,
            r matches Ok(e) ==> env_table(
                os,
                if pointer_width_64 {
                    Platform::X64
                } else {
                    Platform::X32
                },
            ) == Some(e.data()),
            r matches Err(e) ==> e == ConfigError::UnsupportedPlatform,
    {
        if pointer_width_64 {
            Self::environment_for(os, Platform::X64)
        } else {
            Self::environment_for(os, Platform::X32)
        }
    }
}

} // verus!
