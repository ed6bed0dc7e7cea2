//! What it takes to start the installed client.

use vstd::prelude::*;

use crate::path::StoragePath;

verus! {

/// The value of an environment variable.
#[derive(Debug, Clone, PartialEq, Eq)]
pub enum EnvValue {
    /// A directory below the storage root.
    Dir(StoragePath),
    /// A text that is handed on as it is.
    Text(String),
}

/// What an [`EnvValue`] holds, as mathematical values.
pub enum EnvValueView {
    Dir(Seq<Seq<char>>),
    Text(Seq<char>),
}

impl View for EnvValue {
    type V = EnvValueView;

    open spec fn view(&self) -> EnvValueView {
        match self {
            EnvValue::Dir(path) => EnvValueView::Dir(path@),
            EnvValue::Text(text) => EnvValueView::Text(text@),
        }
    }
}

/// One binding of the environment that the client is started in.
#[derive(Debug, Clone, PartialEq, Eq)]
pub struct EnvVar {
    pub name: String,
    pub value: EnvValue,
}

/// What an [`EnvVar`] holds, as mathematical values.
pub struct EnvVarView {
    pub name: Seq<char>,
    pub value: EnvValueView,
}

impl View for EnvVar {
    type V = EnvVarView;

    open spec fn view(&self) -> EnvVarView {
        EnvVarView { name: self.name@, value: self.value@ }
    }
}

/// Everything needed to start the client, short of starting it.
#[derive(Debug, Clone, PartialEq, Eq)]
pub struct LaunchSpec {
    /// The executable.
    pub program: StoragePath,
    /// The directory that the client runs in.
    pub working_dir: StoragePath,
    /// The variables that are set for the client. No name occurs twice.
    pub env: Vec<EnvVar>,
}

/// What a [`LaunchSpec`] holds, as mathematical values.
pub struct LaunchSpecView {
    pub program: Seq<Seq<char>>,
    pub working_dir: Seq<Seq<char>>,
    pub env: Seq<EnvVarView>,
}

impl View for LaunchSpec {
    type V = LaunchSpecView;

    open spec fn view(&self) -> LaunchSpecView {
        LaunchSpecView {
            program: self.program@,
            working_dir: self.working_dir@,
            env: Seq::new(self.env@.len(), |i: int| self.env@[i]@),
        }
    }
}

impl LaunchSpecView {
    /// No variable is bound twice.
    pub open spec fn names_distinct(self) -> bool {
        forall|i: int, j: int|
            0 <= i < j < self.env.len() ==> (#[trigger] self.env[i]).name != (
            #[trigger] self.env[j]).name
    }
}

/// The log level for each verbosity: `info` for none, `debug` for one step
/// up, `trace` for anything else.
pub open spec fn spec_map_verbosity(verbosity: i32) -> Seq<char> {
    if verbosity == 0 {
        "info"@
    } else if verbosity == 1 {
        "debug"@
    } else {
        "trace"@
    }
}

/// The log level that the client is started with at a verbosity.
pub fn map_verbosity(verbosity: i32) -> (level: &'static str)
    ensures
        level@ == spec_map_verbosity(verbosity),
{
    match verbosity {
        0 => "info",
        1 => "debug",
        _ => "trace",
    }
}

} // verus!
