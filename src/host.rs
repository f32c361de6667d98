//! The two pure host queries: which operating system family this is, and which
//! version of the application is running.

use vstd::prelude::*;

verus! {

/// The operating-system families the bridge reports.
#[derive(Clone, Copy, Debug, PartialEq, Eq, Structural)]
pub enum Platform {
    Linux,
    Macos,
    Ios,
    Freebsd,
    Dragonfly,
    Netbsd,
    Openbsd,
    Solaris,
    Android,
    Windows,
    Unknown,
}

impl Platform {
    /// The identifier reported for this family.
    pub open spec fn name_spec(self) -> Seq<char> {
        match self {
            Platform::Linux => "linux"@,
            Platform::Macos => "macos"@,
            Platform::Ios => "ios"@,
            Platform::Freebsd => "freebsd"@,
            Platform::Dragonfly => "dragonfly"@,
            Platform::Netbsd => "netbsd"@,
            Platform::Openbsd => "openbsd"@,
            Platform::Solaris => "solaris"@,
            Platform::Android => "android"@,
            Platform::Windows => "windows"@,
            Platform::Unknown => "unknown"@,
        }
    }

    /// The family named by an operating-system identifier; `Unknown` for any
    /// identifier outside the known set.
    pub open spec fn from_name_spec(os: Seq<char>) -> Platform {
        if os == "linux"@ {
            Platform::Linux
        } else if os == "macos"@ {
            Platform::Macos
        } else if os == "ios"@ {
            Platform::Ios
        } else if os == "freebsd"@ {
            Platform::Freebsd
        } else if os == "dragonfly"@ {
            Platform::Dragonfly
        } else if os == "netbsd"@ {
            Platform::Netbsd
        } else if os == "openbsd"@ {
            Platform::Openbsd
        } else if os == "solaris"@ {
            Platform::Solaris
        } else if os == "android"@ {
            Platform::Android
        } else if os == "windows"@ {
            Platform::Windows
        } else {
            Platform::Unknown
        }
    }

    pub fn name(&self) -> (r: &'static str)
        ensures
            r@ == self.name_spec(),
    {
        match self {
            Platform::Linux => "linux",
            Platform::Macos => "macos",
            Platform::Ios => "ios",
            Platform::Freebsd => "freebsd",
            Platform::Dragonfly => "dragonfly",
            Platform::Netbsd => "netbsd",
            Platform::Openbsd => "openbsd",
            Platform::Solaris => "solaris",
            Platform::Android => "android",
            Platform::Windows => "windows",
            Platform::Unknown => "unknown",
        }
    }

    pub fn from_name(os: &str) -> (r: Platform)
        ensures
            r == Platform::from_name_spec(os@),
    {
        let os = os.to_owned();
        if os == "linux".to_owned() {
            Platform::Linux
        } else if os == "macos".to_owned() {
            Platform::Macos
        } else if os == "ios".to_owned() {
            Platform::Ios
        } else if os == "freebsd".to_owned() {
            Platform::Freebsd
        } else if os == "dragonfly".to_owned() {
            Platform::Dragonfly
        } else if os == "netbsd".to_owned() {
            Platform::Netbsd
        } else if os == "openbsd".to_owned() {
            Platform::Openbsd
        } else if os == "solaris".to_owned() {
            Platform::Solaris
        } else if os == "android".to_owned() {
            Platform::Android
        } else if os == "windows".to_owned() {
            Platform::Windows
        } else {
            Platform::Unknown
        }
    }
}

/// The closed set of identifiers that `get_platform` may report.
pub open spec fn is_known_platform(s: Seq<char>) -> bool {
    exists|p: Platform| #[trigger] p.name_spec() == s
}

/// Reports the host's operating-system family, given the identifier the
/// host was built for. A known identifier comes back unchanged; any other
/// comes back as `"unknown"`, so the answer is always in the known set.
pub fn get_platform(os: &str) -> (r: String)
    ensures
        r@ == Platform::from_name_spec(os@).name_spec(),
        is_known_platform(r@),
        is_known_platform(os@) ==> r@ == os@,
        !is_known_platform(os@) ==> r@ == "unknown"@,
{
    let p = Platform::from_name(os);
    let r = p.name().to_owned();
    assert(r@ == p.name_spec());
    r
}

/// The version reported when none was recorded at build time.
pub open spec fn fallback_version() -> Seq<char> {
    "1.0.0"@
}

/// The version reported for a build-time version: the recorded version when
/// one is present and non-empty, the fallback otherwise.
pub open spec fn version_spec(built: Option<Seq<char>>) -> Seq<char> {
    match built {
        Some(v) => if v.len() > 0 { v } else { fallback_version() },
        None => fallback_version(),
    }
}

/// Reports the application's version, given the version recorded at build
/// time, if any. Never empty.
pub fn get_version(built: Option<&str>) -> (r: String)
    ensures
        r@ == version_spec(
            match built {
                Some(v) => Some(v@),
                None => None,
            },
        ),
        r@.len() > 0,
{
    proof {
        reveal_strlit("1.0.0");
    }
    match built {
        Some(v) => {
            if v.is_empty() {
                "1.0.0".to_owned()
            } else {
                v.to_owned()
            }
        },
        None => "1.0.0".to_owned(),
    }
}

} // verus!
