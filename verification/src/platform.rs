//! The operating systems that the product is built for.

use vstd::prelude::*;
use vstd::string::*;

verus! {

/// An operating system that artifacts are built for or run on.
#[derive(Debug, Clone, Copy, PartialEq, Eq, Structural)]
pub enum OS {
    Linux,
    MacOS,
    Windows,
}

/// The lower-case name of an operating system.
pub open spec fn os_name(os: OS) -> Seq<char> {
    match os {
        OS::Linux => "linux"@,
        OS::MacOS => "macos"@,
        OS::Windows => "windows"@,
    }
}

/// Calls `platforms::Os::as_str` on the matching variant, which
/// gives the target's operating system name in lower case.
#[verifier::external_body]
fn platform_os_name(os: OS) -> (name: &'static str)
    ensures
        name@ == os_name(os),
{
    match os {
        OS::Linux => platforms::Os::Linux.as_str(),
        OS::MacOS => platforms::Os::MacOS.as_str(),
        OS::Windows => platforms::Os::Windows.as_str(),
    }
}

impl OS {
    /// The name under which the operating system is known in target triples
    /// and in artifact names.
    pub fn name(self) -> (name: String)
        ensures
            name@ == os_name(self),
    {
        String::from_str(platform_os_name(self))
    }

    /// Whether this is Windows, which differs from the others in its shell
    /// and in its script and path conventions.
    pub fn is_windows(self) -> (windows: bool)
        ensures
            windows == (self == OS::Windows),
    {
        match self {
            OS::Windows => true,
            _ => false,
        }
    }
}

} // verus!
