use vstd::prelude::*;

use crate::path::{FsPath, PathV};
use crate::supervisor::{elapsed, elapsed_since};
use crate::watch::{excluded, hidden, path_views, Watch};
use crate::workspace::Workspace;

verus! {

/// What the watch loop is handed by the notification source.
pub enum WatchEvent {
    /// Something changed at this path.
    Changed { path: FsPath },
    /// A notification that names no path.
    Unnamed,
    /// The notification source reported an error.
    TransportError,
}

/// What the watch loop decides on an event.
#[derive(Clone, Copy, Debug, PartialEq, Eq, Structural)]
pub enum WatchAction {
    /// The event does not concern the command.
    Ignore,
    /// A relevant change came too soon after the last launch.
    Debounced,
    /// Stop the command and launch it again.
    Relaunch,
}

/// The decision on a change at `p` observed at `now`, given the time of the
/// last launch and the debounce.
pub open spec fn change_action(
    w: Watch,
    root: PathV,
    last_launch_ms: u64,
    debounce_ms: u64,
    p: PathV,
    now: u64,
) -> WatchAction {
    if excluded(w.excludes(), w.workspace_excludes(), root, p) || hidden(w.roots(), root, p) {
        WatchAction::Ignore
    } else if elapsed(last_launch_ms, now) >= debounce_ms {
        WatchAction::Relaunch
    } else {
        WatchAction::Debounced
    }
}

/// The state of the watch loop between events.
pub struct WatchLoop {
    /// When the command was last launched, in milliseconds.
    pub last_launch_ms: u64,
    pub debounce_ms: u64,
}

impl WatchLoop {
    /// The loop right after the first launch of the command, at `launched_ms`.
    pub fn new(watch: &Watch, launched_ms: u64) -> (r: WatchLoop)
        ensures
            r.last_launch_ms == launched_ms,
            r.debounce_ms == watch.debounce_ms(),
    {
        WatchLoop { last_launch_ms: launched_ms, debounce_ms: watch.debounce_millis() }
    }

    /// The decision on `event`, observed at `now`.
    pub fn on_event(&self, watch: &Watch, workspace: &Workspace, event: &WatchEvent, now: u64) -> (r:
        WatchAction)
        ensures
            r == match event {
                WatchEvent::Changed { path } => change_action(
                    *watch,
                    workspace.workspace_root@,
                    self.last_launch_ms,
                    self.debounce_ms,
                    path@,
                    now,
                ),
                _ => WatchAction::Ignore,
            },
    {
        match event {
            WatchEvent::Changed { path } => {
                if watch.is_excluded_path(workspace, path) || watch.is_hidden_path(workspace, path) {
                    WatchAction::Ignore
                } else if elapsed_since(self.last_launch_ms, now) >= self.debounce_ms {
                    WatchAction::Relaunch
                } else {
                    WatchAction::Debounced
                }
            },
            _ => WatchAction::Ignore,
        }
    }

    /// Records that the command was launched again at `now`.
    pub fn launched(&mut self, now: u64)
        ensures
            final(self).last_launch_ms == now,
            final(self).debounce_ms == old(self).debounce_ms,
    {
        self.last_launch_ms = now;
    }
}

impl Watch {
    /// The watch that runs: the target directory is excluded too.
    pub fn excluding_target(self, workspace: &Workspace) -> (r: Watch)
        ensures
            r.excludes() == self.excludes().push(workspace.target_directory@),
            r.roots() == self.roots(),
            r.workspace_excludes() == self.workspace_excludes(),
            r.debounce == self.debounce,
    {
        self.exclude_path(workspace.target_directory.duplicate())
    }

    /// The roots to register with the notification source: the watch paths,
    /// or the workspace root when there are none.
    pub fn roots_to_watch(&self, workspace: &Workspace) -> (r: Vec<FsPath>)
        ensures
            self.roots().len() == 0 ==> path_views(r@) == seq![workspace.workspace_root@],
            self.roots().len() > 0 ==> path_views(r@) == self.roots(),
    {
        let mut out: Vec<FsPath> = Vec::new();
        if self.watch_paths.len() == 0 {
            out.push(workspace.workspace_root.duplicate());
            assert(path_views(out@) =~= seq![workspace.workspace_root@]);
            return out;
        }
        let mut i: usize = 0;
        while i < self.watch_paths.len()
            invariant
                i <= self.watch_paths@.len(),
                path_views(out@) == self.roots().subrange(0, i as int),
            decreases self.watch_paths@.len() - i,
        {
            let ghost before = out@;
            let p = self.watch_paths[i].duplicate();
            out.push(p);
            assert(path_views(out@) =~= self.roots().subrange(0, i as int + 1)) by {
                assert(path_views(out@) =~= path_views(before).push(p@));
            }
            i = i + 1;
        }
        assert(self.roots().subrange(0, self.watch_paths@.len() as int) =~= self.roots());
        out
    }
}

/// Two relevant changes less than the debounce apart give one launch: after
/// a change at `first` led to a launch at `launch` (not before `first`), a
/// change at `second` (not before the launch) with `second - first` under
/// the debounce is not relaunched.
pub proof fn lemma_debounce_one_launch(
    w: Watch,
    root: PathV,
    last_launch_ms: u64,
    debounce_ms: u64,
    first_path: PathV,
    first: u64,
    launch: u64,
    second_path: PathV,
    second: u64,
)
    requires
        change_action(w, root, last_launch_ms, debounce_ms, first_path, first) == WatchAction::Relaunch,
        first <= launch <= second,
        second - first < debounce_ms,
    ensures
        change_action(w, root, launch, debounce_ms, second_path, second) != WatchAction::Relaunch,
{
}

} // verus!
