//! Building blocks of a development workflow for Wasm projects: a filesystem
//! watcher that supervises a command, and a static file server.

pub mod command;
pub mod dist;
pub mod example;
pub mod http;
pub mod path;
pub mod resolve;
pub mod server;
pub mod supervisor;
pub mod text;
pub mod wasm_opt;
pub mod watch;
pub mod watcher;
pub mod workspace;

pub use crate::command::{default_build_command, CommandSpec, Program};
pub use crate::dist::{default_dist_dir, Dist, DistPlan, DistResult};
pub use crate::http::{parse_request_path, HeaderReader, HeaderStep, Status};
pub use crate::path::FsPath;
pub use crate::resolve::{Entry, EntryKind, Listing, Request, Resolution, ResolveError, Response};
pub use crate::server::{DevServer, IpAddr};
pub use crate::supervisor::{ProcessState, Supervisor, SupervisorAction};
pub use crate::wasm_opt::WasmOpt;
pub use crate::watch::Watch;
pub use crate::watcher::{WatchAction, WatchEvent, WatchLoop};
pub use crate::workspace::Workspace;
