//! Install, conceal and detect an auxiliary module on a rooted device, written
//! without any I/O of its own.
//!
//! Every operation is a small state machine: it is handed the outcome of the
//! last request and answers with the next request ([`Action`]) for the caller to
//! carry out. Contracts are stated over a mathematical model of the requests and
//! of a file tree, and the laws of the lifecycle are proved against that model.

pub mod config;
pub mod extract;
pub mod conceal;
pub mod install;
pub mod memfs;
pub mod model;
pub mod path;
pub mod proto;
pub mod theory;
pub mod presence;

pub use conceal::{hide_rezygisk, Hide, HidePhase};
pub use config::{Assets, Config};
pub use extract::{extract_rezygisk_to, Extract, ExtractPhase};
pub use install::{install_rezygisk, Install, InstallPhase};
pub use memfs::{Entry, MemFs};
pub use presence::{is_rezygisk, remove_check, Presence};
pub use proto::{Action, Event, FsOp, IoError, PathKind};
