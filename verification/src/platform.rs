//! The closed set of platforms the guidance and the resolver distinguish.

use vstd::prelude::*;
use crate::text::str_eq;

verus! {

/// The platform a run takes place on.
#[derive(Debug, Clone, Copy, PartialEq, Eq, Structural)]
pub enum Platform {
    Windows,
    MacOS,
    Linux,
    Unknown,
}

/// How a command name is turned into an executable on a platform.
#[derive(Debug, Clone, Copy, PartialEq, Eq, Structural)]
pub enum ResolutionPolicy {
    /// Executables carry a registered extension, which the name may omit.
    ExtensionSuffix,
    /// The name is looked up as it stands.
    DirectLookup,
}

/// The platform an operating system identifier stands for.
pub open spec fn platform_of(os: Seq<char>) -> Platform {
    if os == "windows"@ {
        Platform::Windows
    } else if os == "macos"@ {
        Platform::MacOS
    } else if os == "linux"@ {
        Platform::Linux
    } else {
        Platform::Unknown
    }
}

/// The resolution policy of a platform.
pub open spec fn policy_of(platform: Platform) -> ResolutionPolicy {
    if platform == Platform::Windows {
        ResolutionPolicy::ExtensionSuffix
    } else {
        ResolutionPolicy::DirectLookup
    }
}

/// Maps the host's operating system identifier to its platform. Every
/// identifier has one; those that are not recognised are `Unknown`.
pub fn detect_os(os: &str) -> (platform: Platform)
    ensures
        platform == platform_of(os@),
{
    if str_eq(os, "windows") {
        Platform::Windows
    } else if str_eq(os, "macos") {
        Platform::MacOS
    } else if str_eq(os, "linux") {
        Platform::Linux
    } else {
        Platform::Unknown
    }
}

/// Selects the resolution policy for a platform.
pub fn policy_for(platform: Platform) -> (policy: ResolutionPolicy)
    ensures
        policy == policy_of(platform),
{
    match platform {
        Platform::Windows => ResolutionPolicy::ExtensionSuffix,
        _ => ResolutionPolicy::DirectLookup,
    }
}

/// Platform detection is total and one-to-one on the recognised identifiers:
/// each of the three names its own variant, and an identifier is `Unknown`
/// exactly when it is none of them.
pub proof fn lemma_platform_of_total(os: Seq<char>)
    ensures
        platform_of("windows"@) == Platform::Windows,
        platform_of("macos"@) == Platform::MacOS,
        platform_of("linux"@) == Platform::Linux,
        platform_of(os) == Platform::Windows <==> os == "windows"@,
        platform_of(os) == Platform::MacOS <==> os == "macos"@,
        platform_of(os) == Platform::Linux <==> os == "linux"@,
        platform_of(os) == Platform::Unknown <==> (os != "windows"@ && os != "macos"@ && os
            != "linux"@),
{
    reveal_strlit("windows");
    reveal_strlit("macos");
    reveal_strlit("linux");
    assert("windows"@.len() == 7);
    assert("macos"@.len() == 5);
    assert("linux"@.len() == 5);
    assert("macos"@[0] == 'm');
    assert("linux"@[0] == 'l');
}

} // verus!
