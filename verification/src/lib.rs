//! Profile lifecycle of a game launcher: where a profile lives on disk, which
//! addresses serve it, whether it needs an update, how an installation
//! proceeds and how the installed client is started.
//!
//! Nothing here touches the network, the disk or a process. Whoever embeds the
//! library performs that work and hands the outcome in as plain values.

pub mod consts;
pub mod error;
pub mod install;
pub mod launch;
pub mod path;
pub mod platform;
pub mod profiles;
pub mod record;
pub mod text;
