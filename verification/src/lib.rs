//! Commands for running Docker or a Docker-compatible client.
//!
//! Nothing here talks to a container engine. The library turns typed
//! descriptions of engine operations (build, run, stop, network create and
//! remove) into the exact argument list of a [`command_run::Command`], which
//! the caller may then run in a subprocess.
//!
//! Every token is text. It reaches the command as the bytes of its UTF-8
//! encoding, never quoted, split or reordered.
//!
//! - [`launcher`] holds the [`Launcher`], with one method per subcommand.
//! - [`options`] holds the settings of each subcommand and the tokens they
//!   stand for.
//! - [`values`] holds the values with a text form of their own: ports,
//!   users and groups, volumes.
//! - [`encoder`] says how a setting becomes tokens.
//! - [`detect`] chooses a base command from what the host shows.
//! - [`text`] holds decimal notation and the text of strings in lists.
//! - [`command`] and [`ids`] state what is taken on trust of the crates
//!   that the library calls.

pub mod command;
pub mod detect;
pub mod encoder;
pub mod ids;
pub mod launcher;
pub mod options;
pub mod text;
pub mod values;

pub use command_run;
pub use detect::{Action, Detection, Event};
pub use launcher::{BaseCommand, Launcher};
pub use options::{BuildOpt, CreateNetworkOpt, RunOpt, StopOpt};
pub use values::{NameOrId, PortRange, PublishPorts, UserAndGroup, Volume};
