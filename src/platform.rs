use vstd::prelude::*;
use vstd::string::*;

use crate::error::ConfigError;

verus! {

/// The two families of operating systems whose configuration layout is known.
#[derive(Debug, Clone, Copy, PartialEq, Eq, Structural)]
pub enum SupportedPlatform {
    /// Linux and macOS: XDG and home-directory locations.
    Unix,
    /// Windows: the roaming application-data directory.
    Windows,
}

/// The platform that an operating-system name (as `std::env::consts::OS`
/// spells it) stands for, if it is a supported one.
pub open spec fn platform_of(os: Seq<char>) -> Option<SupportedPlatform> {
    if os == "linux"@ || os == "macos"@ {
        Some(SupportedPlatform::Unix)
    } else if os == "windows"@ {
        Some(SupportedPlatform::Windows)
    } else {
        None
    }
}

/// Maps the name of the running operating system to a supported platform.
/// Any other name is refused with `UnsupportedPlatform`, which carries it.
pub fn detect_platform(os: &str) -> (r: Result<SupportedPlatform, ConfigError>)
    ensures
        platform_of(os@) matches Some(p) ==> r == Ok::<SupportedPlatform, ConfigError>(p),
        platform_of(os@) is None <==> r is Err,
        r matches Err(e) ==> e matches ConfigError::UnsupportedPlatform(name) && name@ == os@,
{
    let name = String::from_str(os);
    if name == String::from_str("linux") || name == String::from_str("macos") {
        Ok(SupportedPlatform::Unix)
    } else if name == String::from_str("windows") {
        Ok(SupportedPlatform::Windows)
    } else {
        Err(ConfigError::UnsupportedPlatform(name))
    }
}

} // verus!
