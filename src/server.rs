use vstd::prelude::*;

use crate::command::CommandSpec;
use crate::path::FsPath;
use crate::watch::Watch;

verus! {

/// An IP address.
#[derive(Clone, Copy, Debug)]
pub enum IpAddr {
    V4([u8; 4]),
    V6([u16; 8]),
}

/// The port served when none is set.
pub const DEFAULT_PORT: u16 = 8000;

/// A small HTTP server for development: it serves a directory and, when a
/// command is set, watches the project and relaunches the command on
/// changes.
pub struct DevServer {
    /// Address to bind; `127.0.0.1` by default.
    pub ip: IpAddr,
    /// Port to bind; `8000` by default.
    pub port: u16,
    /// What is watched; used only when a command is set.
    pub watch: Watch,
    /// Command launched again when a change is seen.
    pub command: Option<CommandSpec>,
    /// File, relative to the served directory, sent when a request names a
    /// file that does not exist.
    pub not_found_path: Option<FsPath>,
}

impl DevServer {
    /// A server on `127.0.0.1:8000` with no command and no fallback.
    pub fn new() -> (r: DevServer)
        ensures
            r.ip == IpAddr::V4([127u8, 0u8, 0u8, 1u8]),
            r.port == DEFAULT_PORT,
            r.watch.roots().len() == 0,
            r.watch.excludes().len() == 0,
            r.watch.workspace_excludes().len() == 0,
            r.watch.debounce is None,
            r.command is None,
            r.not_found_path is None,
    {
        DevServer {
            ip: IpAddr::V4([127u8, 0u8, 0u8, 1u8]),
            port: DEFAULT_PORT,
            watch: Watch::new(),
            command: None,
            not_found_path: None,
        }
    }

    /// Sets the address to bind.
    pub fn address(self, ip: IpAddr, port: u16) -> (r: DevServer)
        ensures
            r.ip == ip,
            r.port == port,
            r.watch == self.watch,
            r.command == self.command,
            r.not_found_path == self.not_found_path,
    {
        let mut r = self;
        r.ip = ip;
        r.port = port;
        r
    }

    /// Sets the command launched again when a change is seen.
    pub fn command(self, command: CommandSpec) -> (r: DevServer)
        ensures
            r.command == Some(command),
            r.ip == self.ip,
            r.port == self.port,
            r.watch == self.watch,
            r.not_found_path == self.not_found_path,
    {
        let mut r = self;
        r.command = Some(command);
        r
    }

    /// Adds an argument to the command, which is the xtask executable when
    /// none was set.
    pub fn arg(self, arg: &str) -> (r: DevServer)
        ensures
            r.command matches Some(c) && c.arg_views() == match self.command {
                Some(old_c) => old_c.arg_views(),
                None => Seq::<Seq<char>>::empty(),
            }.push(arg@),
            self.command is None ==> (r.command matches Some(c) && c.program is Xtask),
            self.command matches Some(old_c) ==> (r.command matches Some(c) && c.program
                == old_c.program),
            r.ip == self.ip,
            r.port == self.port,
            r.watch == self.watch,
            r.not_found_path == self.not_found_path,
    {
        let mut r = self;
        let mut c = match r.command {
            Some(c) => c,
            None => CommandSpec::xtask(),
        };
        c.arg(arg);
        r.command = Some(c);
        r
    }

    /// Adds arguments to the command, which is the xtask executable when
    /// none was set.
    pub fn args(self, args: Vec<String>) -> (r: DevServer)
        ensures
            r.command matches Some(c) && c.arg_views() == match self.command {
                Some(old_c) => old_c.arg_views(),
                None => Seq::<Seq<char>>::empty(),
            } + crate::text::views(args@),
            self.command is None ==> (r.command matches Some(c) && c.program is Xtask),
            self.command matches Some(old_c) ==> (r.command matches Some(c) && c.program
                == old_c.program),
            r.ip == self.ip,
            r.port == self.port,
            r.watch == self.watch,
            r.not_found_path == self.not_found_path,
    {
        let mut r = self;
        let mut c = match r.command {
            Some(c) => c,
            None => CommandSpec::xtask(),
        };
        c.args(args);
        r.command = Some(c);
        r
    }

    /// Sets the file sent when a request names a file that does not exist.
    pub fn not_found(self, path: FsPath) -> (r: DevServer)
        ensures
            r.not_found_path == Some(path),
            r.ip == self.ip,
            r.port == self.port,
            r.watch == self.watch,
            r.command == self.command,
    {
        let mut r = self;
        r.not_found_path = Some(path);
        r
    }

    /// What runs in the background while `dist_dir` is served: when a command
    /// is set, the watch (with the served directory excluded, so that the
    /// server's own files do not relaunch it) and the command.
    pub fn background_watch(self, dist_dir: &FsPath) -> (r: Option<(Watch, CommandSpec)>)
        ensures
            r is Some <==> self.command is Some,
            r matches Some((w, c)) ==> Some(c) == self.command && w.excludes()
                == self.watch.excludes().push(dist_dir@) && w.roots() == self.watch.roots()
                && w.workspace_excludes() == self.watch.workspace_excludes() && w.debounce
                == self.watch.debounce,
    {
        match self.command {
            Some(c) => Some((self.watch.exclude_path(dist_dir.duplicate()), c)),
            None => None,
        }
    }
}

impl Default for DevServer {
    /// A server on `127.0.0.1:8000` with no command and no fallback.
    fn default() -> (r: DevServer)
        ensures
            r.ip == IpAddr::V4([127u8, 0u8, 0u8, 1u8]),
            r.port == DEFAULT_PORT,
            r.watch.roots().len() == 0,
            r.watch.excludes().len() == 0,
            r.watch.workspace_excludes().len() == 0,
            r.watch.debounce is None,
            r.command is None,
            r.not_found_path is None,
    {
        DevServer::new()
    }
}

} // verus!
