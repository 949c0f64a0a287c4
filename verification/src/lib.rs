//! Activity tracking for KiCAD design work.
//!
//! The library decides, from window titles, file events and simple time
//! comparisons, when a "heartbeat" should be recorded for the document a
//! user is editing, and manages the configuration values and command-line
//! arguments that such a recording needs.

use vstd::prelude::*;

pub mod config;
pub mod paths;
pub mod plugin;
pub mod strutil;
pub mod title;
pub mod waka;

verus! {

/// Version string reported in the user agent of every heartbeat.
pub const PLUGIN_VERSION: &'static str = "0.1.0";

/// Command-line switches accepted by the program.
pub struct Args {
    pub disable_heartbeats: bool,
    pub redownload: bool,
}

/// Translate the build-time operating-system and architecture names into
/// the ones used by the tracker CLI release files:
/// "macos" becomes "darwin"; "x86" becomes "386", "x86_64" becomes "amd64",
/// "aarch64" becomes "arm64"; everything else is kept as it is.
pub fn env_consts(os: &str, arch: &str) -> (r: (String, String))
    ensures
        r.0@ == (if os@ == "macos"@ {
            "darwin"@
        } else {
            os@
        }),
        r.1@ == (if arch@ == "x86"@ {
            "386"@
        } else if arch@ == "x86_64"@ {
            "amd64"@
        } else if arch@ == "aarch64"@ {
            "arm64"@
        } else {
            arch@
        }),
{
    let mapped_os: String = if strutil::str_eq_str(os, "macos") {
        String::from_str("darwin")
    } else {
        String::from_str(os)
    };
    let mapped_arch: String = if strutil::str_eq_str(arch, "x86") {
        String::from_str("386")
    } else if strutil::str_eq_str(arch, "x86_64") {
        String::from_str("amd64")
    } else if strutil::str_eq_str(arch, "aarch64") {
        String::from_str("arm64")
    } else {
        String::from_str(arch)
    };
    (mapped_os, mapped_arch)
}

} // verus!
