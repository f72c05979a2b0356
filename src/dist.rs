use vstd::prelude::*;

use crate::command::{default_build_command, CommandSpec, Program};
use crate::path::{parse_path, path_join, path_with_extension, FsPath, PathV};
use crate::text::views;
use crate::workspace::Workspace;

verus! {

/// `[f]` when `on`, else nothing.
pub open spec fn flag(on: bool, f: Seq<char>) -> Seq<Seq<char>> {
    if on {
        seq![f]
    } else {
        Seq::<Seq<char>>::empty()
    }
}

/// `[f, v]` when a value is set, else nothing.
pub open spec fn valued(f: Seq<char>, v: Option<String>) -> Seq<Seq<char>> {
    match v {
        Some(x) => seq![f, x@],
        None => Seq::<Seq<char>>::empty(),
    }
}

/// `--features f` for each feature, in order.
pub open spec fn feature_args(fs: Seq<Seq<char>>) -> Seq<Seq<char>>
    decreases fs.len(),
{
    if fs.len() == 0 {
        Seq::<Seq<char>>::empty()
    } else {
        feature_args(fs.drop_last()) + seq!["--features"@, fs.last()]
    }
}

/// `s` with each `-` written `_`.
pub open spec fn underscored(s: Seq<char>) -> Seq<char> {
    s.map_values(|c: char| if c == '-' { '_' } else { c })
}

/// The directory of the generated package by default:
/// `<target>/release/dist` or `<target>/debug/dist`.
pub open spec fn default_dist_spec(target: PathV, release: bool) -> PathV {
    path_join(
        path_join(target, parse_path(if release { "release"@ } else { "debug"@ })),
        parse_path("dist"@),
    )
}

/// Where the build leaves the Wasm binary of `package` (or of `example`).
pub open spec fn input_path_spec(
    target: PathV,
    release: bool,
    example: Option<Seq<char>>,
    package: Seq<char>,
) -> PathV {
    let build_dir = path_join(
        path_join(target, parse_path("wasm32-unknown-unknown"@)),
        parse_path(if release { "release"@ } else { "debug"@ }),
    );
    let file = match example {
        Some(e) => path_join(path_join(build_dir, parse_path("examples"@)), parse_path(underscored(e))),
        None => path_join(build_dir, parse_path(underscored(package))),
    };
    path_with_extension(file, "wasm"@)
}

/// Generates the package to distribute: builds the project for Wasm, then
/// hands what the build made to the bindings generator.
pub struct Dist {
    /// No output printed to stdout.
    pub quiet: bool,
    /// Number of parallel jobs.
    pub jobs: Option<String>,
    /// Build profile.
    pub profile: Option<String>,
    /// Build in release mode, with optimizations.
    pub release: bool,
    /// Features to activate.
    pub features: Vec<String>,
    /// Activate all available features.
    pub all_features: bool,
    /// Do not activate the `default` feature.
    pub no_default_features: bool,
    /// Verbose output.
    pub verbose: bool,
    /// Coloring: auto, always, never.
    pub color: Option<String>,
    /// Require `Cargo.lock` and cache to be up to date.
    pub frozen: bool,
    /// Require `Cargo.lock` to be up to date.
    pub locked: bool,
    /// Run without accessing the network.
    pub offline: bool,
    /// Ignore `rust-version` in packages.
    pub ignore_rust_version: bool,
    /// Example target to build.
    pub example: Option<String>,
    /// Command that builds the project.
    pub build_command: CommandSpec,
    /// Directory of the generated artifacts.
    pub dist_dir_path: Option<FsPath>,
    /// Directory of the static artifacts.
    pub static_dir_path: Option<FsPath>,
    /// Name of the generated app; `app` by default.
    pub app_name: Option<String>,
    /// Run the build at the workspace root.
    pub run_in_workspace: bool,
}

/// The arguments that the options of `d` add to the build command, for
/// `package`.
pub open spec fn build_args(d: Dist, package: Seq<char>) -> Seq<Seq<char>> {
    flag(d.quiet, "--quiet"@) + valued("--jobs"@, d.jobs) + valued("--profile"@, d.profile) + flag(
        d.release,
        "--release"@,
    ) + feature_args(views(d.features@)) + flag(d.all_features, "--all-features"@) + flag(
        d.no_default_features,
        "--no-default-features"@,
    ) + flag(d.verbose, "--verbose"@) + valued("--color"@, d.color) + flag(d.frozen, "--frozen"@)
        + flag(d.locked, "--locked"@) + flag(d.offline, "--offline"@) + flag(
        d.ignore_rust_version,
        "--ignore-rust-version"@,
    ) + seq!["--package"@, package] + valued("--example"@, d.example)
}

/// The work of one packaging run, decided before anything runs.
pub struct DistPlan {
    /// The build command, with its arguments and directory.
    pub build_command: CommandSpec,
    /// The Wasm binary the build leaves.
    pub input_path: FsPath,
    /// Directory of the generated package.
    pub dist_dir: FsPath,
    /// Name of the generated files.
    pub app_name: String,
    /// Whether the bindings keep debug information.
    pub debug: bool,
    /// The JS file to write.
    pub js_path: FsPath,
    /// The Wasm file to write.
    pub wasm_path: FsPath,
    /// Directory whose content is copied into the package.
    pub static_dir: Option<FsPath>,
}

/// The paths of the generated package.
pub struct DistResult {
    /// Directory of the generated artifacts.
    pub dist_dir: FsPath,
    /// JS output of the bindings generator.
    pub js: FsPath,
    /// Wasm output of the bindings generator.
    pub wasm: FsPath,
}

fn push_flag(out: &mut Vec<String>, on: bool, f: &str)
    ensures
        views(final(out)@) == views(old(out)@) + flag(on, f@),
{
    let ghost before = out@;
    if on {
        out.push(f.to_owned());
        assert(views(out@) =~= views(before) + flag(on, f@));
    } else {
        assert(views(out@) =~= views(before) + flag(on, f@));
    }
}

fn push_valued(out: &mut Vec<String>, f: &str, v: &Option<String>)
    ensures
        views(final(out)@) == views(old(out)@) + valued(f@, *v),
{
    let ghost before = out@;
    match v {
        Some(x) => {
            out.push(f.to_owned());
            out.push(x.clone());
            assert(views(out@) =~= views(before) + valued(f@, *v));
        },
        None => {
            assert(views(out@) =~= views(before) + valued(f@, *v));
        },
    }
}

fn push_features(out: &mut Vec<String>, fs: &Vec<String>)
    ensures
        views(final(out)@) == views(old(out)@) + feature_args(views(fs@)),
{
    let ghost start = views(out@);
    let ghost all = views(fs@);
    let mut i: usize = 0;
    assert(all.subrange(0, 0) =~= Seq::<Seq<char>>::empty());
    assert(views(out@) =~= start + feature_args(all.subrange(0, 0)));
    while i < fs.len()
        invariant
            i <= fs@.len(),
            all == views(fs@),
            all.len() == fs@.len(),
            views(out@) == start + feature_args(all.subrange(0, i as int)),
        decreases fs@.len() - i,
    {
        let ghost before = views(out@);
        push_flag(out, true, "--features");
        let item = fs[i].clone();
        let ghost mid = out@;
        out.push(item);
        let ghost upto = all.subrange(0, i as int + 1);
        assert(upto.drop_last() =~= all.subrange(0, i as int));
        assert(upto.last() == item@);
        assert(views(out@) =~= views(mid).push(item@));
        assert(views(out@) =~= start + feature_args(upto));
        i = i + 1;
    }
    assert(all.subrange(0, all.len() as int) =~= all);
}

/// `s` with each `-` written `_`.
pub fn replace_dashes(s: &str) -> (r: String)
    ensures
        r@ == underscored(s@),
{
    let n = s.unicode_len();
    let mut out = String::new();
    let mut i: usize = 0;
    while i < n
        invariant
            n == s@.len(),
            i <= n,
            out@ == underscored(s@.subrange(0, i as int)),
        decreases n - i,
    {
        proof {
            reveal_strlit("_");
        }
        let c = s.get_char(i);
        if c == '-' {
            out.append("_");
        } else {
            out.append(s.substring_char(i, i + 1));
        }
        assert(out@ =~= underscored(s@.subrange(0, i as int + 1)));
        i = i + 1;
    }
    assert(s@.subrange(0, n as int) =~= s@);
    out
}

/// The directory of the generated package by default: `<target>/release/dist`
/// for a release build, `<target>/debug/dist` otherwise.
pub fn default_dist_dir(release: bool, workspace: &Workspace) -> (r: FsPath)
    ensures
        r@ == default_dist_spec(workspace.target_directory@, release),
{
    let profile = if release { "release" } else { "debug" };
    workspace.target_directory.join_str(profile).join_str("dist")
}

impl Dist {
    /// A packaging run with no option set, the default build command, at the
    /// workspace root.
    pub fn new() -> (r: Dist)
        ensures
            !r.quiet && !r.release && !r.all_features && !r.no_default_features && !r.verbose
                && !r.frozen && !r.locked && !r.offline && !r.ignore_rust_version,
            r.jobs is None && r.profile is None && r.color is None && r.example is None,
            r.features@.len() == 0,
            r.build_command.program matches Program::Named { name } && name@ == "cargo"@,
            r.build_command.arg_views() == seq!["build"@, "--target"@, "wasm32-unknown-unknown"@],
            r.build_command.current_dir is None,
            r.dist_dir_path is None && r.static_dir_path is None && r.app_name is None,
            r.run_in_workspace,
    {
        Dist {
            quiet: false,
            jobs: None,
            profile: None,
            release: false,
            features: Vec::new(),
            all_features: false,
            no_default_features: false,
            verbose: false,
            color: None,
            frozen: false,
            locked: false,
            offline: false,
            ignore_rust_version: false,
            example: None,
            build_command: default_build_command(),
            dist_dir_path: None,
            static_dir_path: None,
            app_name: None,
            run_in_workspace: true,
        }
    }

    /// Sets the command that builds the project.
    pub fn build_command(self, command: CommandSpec) -> (r: Dist)
        ensures
            r == (Dist { build_command: command, ..self }),
    {
        Dist { build_command: command, ..self }
    }

    /// Sets the directory of the generated artifacts.
    pub fn dist_dir_path(self, path: FsPath) -> (r: Dist)
        ensures
            r == (Dist { dist_dir_path: Some(path), ..self }),
    {
        Dist { dist_dir_path: Some(path), ..self }
    }

    /// Sets the directory of the static artifacts.
    pub fn static_dir_path(self, path: FsPath) -> (r: Dist)
        ensures
            r == (Dist { static_dir_path: Some(path), ..self }),
    {
        Dist { static_dir_path: Some(path), ..self }
    }

    /// Sets the name of the generated app.
    pub fn app_name(self, app_name: String) -> (r: Dist)
        ensures
            r == (Dist { app_name: Some(app_name), ..self }),
    {
        Dist { app_name: Some(app_name), ..self }
    }

    /// Sets whether the build runs at the workspace root.
    pub fn run_in_workspace(self, res: bool) -> (r: Dist)
        ensures
            r == (Dist { run_in_workspace: res, ..self }),
    {
        Dist { run_in_workspace: res, ..self }
    }

    /// Sets the example to build.
    pub fn example(self, example: String) -> (r: Dist)
        ensures
            r == (Dist { example: Some(example), ..self }),
    {
        Dist { example: Some(example), ..self }
    }

    /// The arguments that the options add to the build command.
    pub fn build_args(&self, package_name: &str) -> (r: Vec<String>)
        ensures
            views(r@) == build_args(*self, package_name@),
    {
        let mut out: Vec<String> = Vec::new();
        push_flag(&mut out, self.quiet, "--quiet");
        push_valued(&mut out, "--jobs", &self.jobs);
        push_valued(&mut out, "--profile", &self.profile);
        push_flag(&mut out, self.release, "--release");
        push_features(&mut out, &self.features);
        push_flag(&mut out, self.all_features, "--all-features");
        push_flag(&mut out, self.no_default_features, "--no-default-features");
        push_flag(&mut out, self.verbose, "--verbose");
        push_valued(&mut out, "--color", &self.color);
        push_flag(&mut out, self.frozen, "--frozen");
        push_flag(&mut out, self.locked, "--locked");
        push_flag(&mut out, self.offline, "--offline");
        push_flag(&mut out, self.ignore_rust_version, "--ignore-rust-version");
        push_flag(&mut out, true, "--package");
        let ghost before = out@;
        out.push(package_name.to_owned());
        assert(views(out@) =~= views(before).push(package_name@));
        push_valued(&mut out, "--example", &self.example);
        assert(views(out@) =~= build_args(*self, package_name@));
        out
    }

    /// Everything a packaging run of `package_name` will do: the build
    /// command with its arguments (run at the workspace root when so set),
    /// the binary it leaves, and the files to generate.
    pub fn plan(self, package_name: &str, workspace: &Workspace) -> (r: DistPlan)
        ensures
            r.build_command.program == self.build_command.program,
            r.build_command.arg_views() == self.build_command.arg_views() + build_args(
                self,
                package_name@,
            ),
            r.build_command.dir_view() == if self.run_in_workspace {
                Some(workspace.workspace_root@)
            } else {
                self.build_command.dir_view()
            },
            r.input_path@ == input_path_spec(
                workspace.target_directory@,
                self.release,
                match self.example {
                    Some(e) => Some(e@),
                    None => None,
                },
                package_name@,
            ),
            r.dist_dir@ == match self.dist_dir_path {
                Some(p) => p@,
                None => default_dist_spec(workspace.target_directory@, self.release),
            },
            r.app_name@ == match self.app_name {
                Some(n) => n@,
                None => "app"@,
            },
            r.debug == !self.release,
            r.js_path@ == path_with_extension(path_join(r.dist_dir@, parse_path(r.app_name@)), "js"@),
            r.wasm_path@ == path_with_extension(
                path_join(r.dist_dir@, parse_path(r.app_name@)),
                "wasm"@,
            ),
            r.static_dir == self.static_dir_path,
    {
        let args = self.build_args(package_name);
        let dist_dir = match &self.dist_dir_path {
            Some(p) => p.duplicate(),
            None => default_dist_dir(self.release, workspace),
        };
        let mut command = self.build_command;
        if self.run_in_workspace {
            command.current_dir(workspace.workspace_root.duplicate());
        }
        command.args(args);
        let profile = if self.release { "release" } else { "debug" };
        let build_dir = workspace.target_directory.join_str("wasm32-unknown-unknown").join_str(
            profile,
        );
        let file = match &self.example {
            Some(e) => build_dir.join_str("examples").join_str(replace_dashes(e.as_str()).as_str()),
            None => build_dir.join_str(replace_dashes(package_name).as_str()),
        };
        let input_path = file.with_extension("wasm");
        let app_name = match self.app_name {
            Some(n) => n,
            None => String::from_str("app"),
        };
        let base = dist_dir.join_str(app_name.as_str());
        let js_path = base.with_extension("js");
        let wasm_path = base.with_extension("wasm");
        DistPlan {
            build_command: command,
            input_path,
            dist_dir,
            app_name,
            debug: !self.release,
            js_path,
            wasm_path,
            static_dir: self.static_dir_path,
        }
    }
}

impl DistPlan {
    /// The paths of the package once it is generated.
    pub fn into_result(self) -> (r: DistResult)
        ensures
            r.dist_dir == self.dist_dir,
            r.js == self.js_path,
            r.wasm == self.wasm_path,
    {
        DistResult { dist_dir: self.dist_dir, js: self.js_path, wasm: self.wasm_path }
    }
}

} // verus!
