use xtask_wasm::command::Program;
use xtask_wasm::dist::replace_dashes;
use xtask_wasm::text::decimal;
use xtask_wasm::wasm_opt::wasm_opt_url;
use xtask_wasm::{default_build_command, default_dist_dir, CommandSpec, Dist, FsPath, WasmOpt, Workspace};

fn workspace() -> Workspace {
    Workspace {
        workspace_root: FsPath::new("/home/dev/project"),
        target_directory: FsPath::new("/home/dev/project/target"),
    }
}

fn strings(v: &[&str]) -> Vec<String> {
    v.iter().map(|s| s.to_string()).collect()
}

#[test]
fn default_build_command_targets_wasm() {
    let c = default_build_command();
    assert!(matches!(c.program, Program::Named { ref name } if name == "cargo"));
    assert_eq!(c.args, strings(&["build", "--target", "wasm32-unknown-unknown"]));
}

#[test]
fn default_dist_dir_by_profile() {
    let ws = workspace();
    assert_eq!(default_dist_dir(false, &ws).to_text(), "/home/dev/project/target/debug/dist");
    assert_eq!(default_dist_dir(true, &ws).to_text(), "/home/dev/project/target/release/dist");
}

#[test]
fn build_args_follow_the_options() {
    let mut dist = Dist::new();
    assert_eq!(dist.build_args("my-app"), strings(&["--package", "my-app"]));

    dist.quiet = true;
    dist.jobs = Some("4".to_string());
    dist.release = true;
    dist.features = strings(&["a", "b"]);
    dist.no_default_features = true;
    dist.color = Some("never".to_string());
    dist.offline = true;
    let dist = dist.example("demo-one".to_string());
    assert_eq!(
        dist.build_args("my-app"),
        strings(&[
            "--quiet", "--jobs", "4", "--release", "--features", "a", "--features", "b",
            "--no-default-features", "--color", "never", "--offline", "--package", "my-app",
            "--example", "demo-one",
        ])
    );
}

#[test]
fn plan_for_a_package() {
    let ws = workspace();
    let plan = Dist::new().app_name("site".to_string()).plan("my-app", &ws);
    assert_eq!(
        plan.build_command.args,
        strings(&["build", "--target", "wasm32-unknown-unknown", "--package", "my-app"])
    );
    assert_eq!(plan.build_command.current_dir.as_ref().unwrap().to_text(), "/home/dev/project");
    assert_eq!(
        plan.input_path.to_text(),
        "/home/dev/project/target/wasm32-unknown-unknown/debug/my_app.wasm"
    );
    assert_eq!(plan.dist_dir.to_text(), "/home/dev/project/target/debug/dist");
    assert_eq!(plan.js_path.to_text(), "/home/dev/project/target/debug/dist/site.js");
    assert_eq!(plan.wasm_path.to_text(), "/home/dev/project/target/debug/dist/site.wasm");
    assert!(plan.debug);
    let result = plan.into_result();
    assert_eq!(result.js.to_text(), "/home/dev/project/target/debug/dist/site.js");
}

#[test]
fn plan_for_an_example_in_release() {
    let ws = workspace();
    let mut dist = Dist::new()
        .run_in_workspace(false)
        .dist_dir_path(FsPath::new("out"))
        .build_command(CommandSpec::new("cargo"))
        .example("run-example".to_string());
    dist.release = true;
    let plan = dist.plan("pkg", &ws);
    assert!(plan.build_command.current_dir.is_none());
    assert_eq!(
        plan.input_path.to_text(),
        "/home/dev/project/target/wasm32-unknown-unknown/release/examples/run_example.wasm"
    );
    assert_eq!(plan.js_path.to_text(), "out/app.js");
    assert!(!plan.debug);
}

#[test]
fn dashes_become_underscores() {
    assert_eq!(replace_dashes("a-b-c"), "a_b_c");
    assert_eq!(replace_dashes(""), "");
}

#[test]
fn decimal_digits() {
    assert_eq!(decimal(0), "0");
    assert_eq!(decimal(10), "10");
    assert_eq!(decimal(u64::MAX), "18446744073709551615");
}

#[test]
fn paths_read_and_written() {
    let p = FsPath::new("/a//b/./c/");
    assert!(p.absolute);
    assert_eq!(p.components, strings(&["a", "b", "c"]));
    assert_eq!(p.to_text(), "/a/b/c");
    assert_eq!(FsPath::new("x/y.tar.gz").extension().unwrap(), "gz");
    assert!(FsPath::new(".bashrc").extension().is_none());
    assert!(FsPath::new("a/..").extension().is_none());
    assert_eq!(FsPath::new("a/b.txt").with_extension("md").to_text(), "a/b.md");
    assert_eq!(FsPath::new("a/b.txt").with_extension("").to_text(), "a/b");
    assert_eq!(FsPath::new("/a").join(&FsPath::new("/b")).to_text(), "/b");
    assert_eq!(FsPath::new("/a/b/c").strip_prefix(&FsPath::new("/a")).unwrap().to_text(), "b/c");
    assert!(FsPath::new("/a/b").strip_prefix(&FsPath::new("/a/c")).is_none());
}

#[test]
fn wasm_opt_options_and_arguments() {
    let opt = WasmOpt::level(1).shrink(2);
    assert_eq!(opt.optimization_level, 1);
    assert_eq!(opt.shrink_level, 2);
    assert!(!opt.debug_info);
    assert_eq!(
        opt.args(&FsPath::new("/t/app.wasm")),
        strings(&["/t/app.wasm", "-o", "/t/app.opt", "-O", "-ol", "1", "-s", "2"])
    );
    let opt = opt.debug();
    assert_eq!(opt.args(&FsPath::new("app.wasm")).last().unwrap(), "-g");
    assert_eq!(WasmOpt::output_path(&FsPath::new("a/app.wasm")).to_text(), "a/app.opt");
}

#[test]
fn wasm_opt_download_url() {
    assert_eq!(
        wasm_opt_url("linux", "x86_64"),
        "https://github.com/WebAssembly/binaryen/releases/download/version_110/binaryen-version_110-x86_64-linux.tar.gz"
    );
    assert_eq!(
        wasm_opt_url("macos", "aarch64"),
        "https://github.com/WebAssembly/binaryen/releases/download/version_110/binaryen-version_110-arm64-macos.tar.gz"
    );
}

#[test]
fn example_index_page_loads_the_app() {
    assert_eq!(
        xtask_wasm::example::example_index_html("demo"),
        r#"<!DOCTYPE html><html><head><meta charset="utf-8"/><script type="module">import init from "/demo.js";init(new URL('demo.wasm', import.meta.url));</script></head><body></body></html>"#
    );
}
