use xtask_wasm::supervisor::{ProcessState, Supervisor, SupervisorAction};
use xtask_wasm::{FsPath, Watch, WatchAction, WatchEvent, WatchLoop, Workspace};

fn workspace() -> Workspace {
    Workspace {
        workspace_root: FsPath::new("/home/dev/project"),
        target_directory: FsPath::new("/home/dev/project/target"),
    }
}

fn changed(path: &str) -> WatchEvent {
    WatchEvent::Changed { path: FsPath::new(path) }
}

#[test]
fn exclude_relative_path() {
    let watch = Watch {
        debounce: None,
        watch_paths: Vec::new(),
        exclude_paths: Vec::new(),
        workspace_exclude_paths: vec![FsPath::new("src/watch.rs")],
    };
    let ws = workspace();

    assert!(watch.is_excluded_path(&ws, &ws.workspace_root.join_str("src").join_str("watch.rs")));
    assert!(!watch.is_excluded_path(&ws, &ws.workspace_root.join_str("src")));
}

#[test]
fn exclude_absolute_path_covers_everything_below() {
    let ws = workspace();
    let watch = Watch::new().exclude_path(FsPath::new("/home/dev/project/dist"));
    assert!(watch.is_excluded_path(&ws, &FsPath::new("/home/dev/project/dist")));
    assert!(watch.is_excluded_path(&ws, &FsPath::new("/home/dev/project/dist/app.js")));
    assert!(watch.is_excluded_path(&ws, &FsPath::new("/home/dev/project/dist/a/b/c.wasm")));
    assert!(!watch.is_excluded_path(&ws, &FsPath::new("/home/dev/project/distribution/x")));
    assert!(!watch.is_excluded_path(&ws, &FsPath::new("/home/dev/project/src/main.rs")));
}

#[test]
fn workspace_exclusion_needs_the_workspace_root() {
    let ws = workspace();
    let watch = Watch::new().exclude_workspace_paths(vec![FsPath::new("dist"), FsPath::new("docs")]);
    assert!(watch.is_excluded_path(&ws, &FsPath::new("/home/dev/project/docs/index.md")));
    assert!(watch.is_excluded_path(&ws, &FsPath::new("/home/dev/project/dist")));
    assert!(!watch.is_excluded_path(&ws, &FsPath::new("/elsewhere/dist/app.js")));
}

#[test]
fn excluding_target_adds_the_target_directory() {
    let ws = workspace();
    let watch = Watch::new().excluding_target(&ws);
    assert!(watch.is_excluded_path(&ws, &FsPath::new("/home/dev/project/target/debug/app")));
    assert!(!watch.is_excluded_path(&ws, &FsPath::new("/home/dev/project/src/lib.rs")));
}

#[test]
fn hidden_relative_to_workspace_root() {
    let ws = workspace();
    let watch = Watch::new();
    assert!(watch.is_hidden_path(&ws, &FsPath::new("/home/dev/project/.git/HEAD")));
    assert!(watch.is_hidden_path(&ws, &FsPath::new("/home/dev/project/src/.cache")));
    assert!(!watch.is_hidden_path(&ws, &FsPath::new("/home/dev/project/src/lib.rs")));
}

#[test]
fn hidden_relative_to_nearest_watch_root() {
    let ws = workspace();
    let watch = Watch::new()
        .watch_path(FsPath::new("/home/dev/.config"))
        .watch_path(FsPath::new("/home/dev/.config/app"));
    // Relative to the nearest root the path has no dotted component.
    assert!(!watch.is_hidden_path(&ws, &FsPath::new("/home/dev/.config/app/settings.toml")));
    assert!(watch.is_hidden_path(&ws, &FsPath::new("/home/dev/.config/app/.swap")));
    assert!(watch.is_hidden_path(&ws, &FsPath::new("/home/dev/.config/.state/x")));
    // A path under no root is not hidden.
    assert!(!watch.is_hidden_path(&ws, &FsPath::new("/tmp/.x")));
}

#[test]
fn roots_to_watch_default_to_workspace_root() {
    let ws = workspace();
    let roots = Watch::new().roots_to_watch(&ws);
    assert_eq!(roots.len(), 1);
    assert_eq!(roots[0].to_text(), "/home/dev/project");

    let roots = Watch::new()
        .watch_paths(vec![FsPath::new("/a"), FsPath::new("/b/c")])
        .roots_to_watch(&ws);
    assert_eq!(roots.len(), 2);
    assert_eq!(roots[1].to_text(), "/b/c");
}

#[test]
fn debounce_defaults_to_two_seconds() {
    assert_eq!(Watch::new().debounce_millis(), 2000);
    assert_eq!(Watch::new().debounce(500).debounce_millis(), 500);
}

#[test]
fn debounce_scenario_gives_two_launches() {
    let ws = workspace();
    let watch = Watch::new().debounce(2000);
    // The command was first launched long before the first write.
    let mut state = WatchLoop::new(&watch, 0);
    let mut launches = 0;
    for at in [10_000u64, 10_500, 12_100] {
        match state.on_event(&watch, &ws, &changed("/home/dev/project/src/lib.rs"), at) {
            WatchAction::Relaunch => {
                launches += 1;
                state.launched(at);
            }
            WatchAction::Debounced | WatchAction::Ignore => {}
        }
    }
    assert_eq!(launches, 2);
}

#[test]
fn events_close_together_launch_once() {
    let ws = workspace();
    let watch = Watch::new();
    let mut state = WatchLoop::new(&watch, 0);
    let event = changed("/home/dev/project/src/main.rs");
    assert!(state.on_event(&watch, &ws, &event, 5_000) == WatchAction::Relaunch);
    state.launched(5_000);
    assert!(state.on_event(&watch, &ws, &event, 5_001) == WatchAction::Debounced);
    assert!(state.on_event(&watch, &ws, &event, 6_999) == WatchAction::Debounced);
    assert!(state.on_event(&watch, &ws, &event, 7_000) == WatchAction::Relaunch);
}

#[test]
fn irrelevant_events_are_ignored() {
    let ws = workspace();
    let watch = Watch::new().exclude_workspace_path(FsPath::new("dist"));
    let state = WatchLoop::new(&watch, 0);
    let now = 100_000;
    assert!(state.on_event(&watch, &ws, &changed("/home/dev/project/dist/app.js"), now) == WatchAction::Ignore);
    assert!(state.on_event(&watch, &ws, &changed("/home/dev/project/.git/index"), now) == WatchAction::Ignore);
    assert!(state.on_event(&watch, &ws, &WatchEvent::Unnamed, now) == WatchAction::Ignore);
    assert!(state.on_event(&watch, &ws, &WatchEvent::TransportError, now) == WatchAction::Ignore);
}

#[test]
fn terminate_signals_then_kills_after_timeout() {
    let mut s = Supervisor::new(true);
    assert!(s.may_spawn());
    s.spawned();
    assert!(!s.may_spawn());
    assert!(s.terminate(1_000) == SupervisorAction::Signal);
    assert!(s.state == ProcessState::Terminating { since_ms: 1_000 });
    assert!(s.poll(false, 1_200) == SupervisorAction::Sleep { millis: 200 });
    assert!(s.poll(false, 2_999) == SupervisorAction::Sleep { millis: 200 });
    assert!(s.poll(false, 3_000) == SupervisorAction::Kill);
    assert!(s.state == ProcessState::Stopped);
    assert!(s.may_spawn());
}

#[test]
fn terminate_stops_when_process_exits() {
    let mut s = Supervisor::new(true);
    s.spawned();
    assert!(s.terminate(0) == SupervisorAction::Signal);
    assert!(s.poll(true, 400) == SupervisorAction::Nothing);
    assert!(s.state == ProcessState::Stopped);
}

#[test]
fn terminate_on_stopped_process_does_nothing() {
    let mut s = Supervisor::new(true);
    s.spawned();
    s.terminate(0);
    s.poll(true, 10);
    assert!(s.terminate(50) == SupervisorAction::Nothing);
    assert!(s.state == ProcessState::Stopped);
    let mut fresh = Supervisor::new(true);
    assert!(fresh.terminate(0) == SupervisorAction::Nothing);
    assert!(fresh.state == ProcessState::NotStarted);
}

#[test]
fn terminate_without_signals_kills_at_once() {
    let mut s = Supervisor::new(false);
    s.spawned();
    assert!(s.terminate(0) == SupervisorAction::Kill);
    assert!(s.state == ProcessState::Stopped);
}
