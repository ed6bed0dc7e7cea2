//! The family of the host, as far as it decides file names and what follows
//! an extraction.

use vstd::prelude::*;

verus! {

/// The family of operating systems that the launcher runs on.
#[derive(Debug, Clone, Copy, PartialEq, Eq, Structural)]
pub enum Platform {
    /// Linux, macOS and their kin.
    Posix,
    Windows,
}

impl Platform {
    /// The file name of the client executable.
    pub fn voxygen_file(&self) -> (name: &'static str)
        ensures
            name@ == self.spec_voxygen_file(),
    {
        match self {
            Platform::Posix => "veloren-voxygen",
            Platform::Windows => "veloren-voxygen.exe",
        }
    }

    /// The file name of the client executable on each platform.
    pub open spec fn spec_voxygen_file(&self) -> Seq<char> {
        match self {
            Platform::Posix => "veloren-voxygen"@,
            Platform::Windows => "veloren-voxygen.exe"@,
        }
    }

    /// The file name of the command line server that ships with the client.
    pub fn server_cli_file(&self) -> (name: &'static str)
        ensures
            name@ == self.spec_server_cli_file(),
    {
        match self {
            Platform::Posix => "veloren-server-cli",
            Platform::Windows => "veloren-server-cli.exe",
        }
    }

    /// The file name of the command line server on each platform.
    pub open spec fn spec_server_cli_file(&self) -> Seq<char> {
        match self {
            Platform::Posix => "veloren-server-cli"@,
            Platform::Windows => "veloren-server-cli.exe"@,
        }
    }
}

} // verus!
