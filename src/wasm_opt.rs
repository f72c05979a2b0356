use vstd::prelude::*;

use crate::path::{path_text, path_with_extension, FsPath, PathV};
use crate::text::{decimal, decimal_text, same_text, views};

verus! {

/// The release of binaryen whose `wasm-opt` is used.
pub const BINARYEN_VERSION: &'static str = "110";

/// Options of the `wasm-opt` optimizer of binaryen.
pub struct WasmOpt {
    /// How much to focus on optimizing code.
    pub optimization_level: u32,
    /// How much to focus on shrinking code size.
    pub shrink_level: u32,
    /// Emit the names section in the Wasm binary.
    pub debug_info: bool,
}

/// The arguments of `wasm-opt` for input `input` and options `o`.
pub open spec fn wasm_opt_args(o: WasmOpt, input: PathV) -> Seq<Seq<char>> {
    seq![
        path_text(input),
        "-o"@,
        path_text(path_with_extension(input, "opt"@)),
        "-O"@,
        "-ol"@,
        decimal_text(o.optimization_level as nat),
        "-s"@,
        decimal_text(o.shrink_level as nat),
    ] + if o.debug_info {
        seq!["-g"@]
    } else {
        Seq::<Seq<char>>::empty()
    }
}

/// The machine name that binaryen's releases use for `arch`.
pub open spec fn release_arch(arch: Seq<char>) -> Seq<char> {
    if arch == "aarch64"@ {
        "arm64"@
    } else {
        arch
    }
}

/// Where binaryen's release for `os` and `arch` is downloaded from.
pub open spec fn wasm_opt_url_spec(os: Seq<char>, arch: Seq<char>) -> Seq<char> {
    "https://github.com/WebAssembly/binaryen/releases/download/version_"@ + BINARYEN_VERSION@
        + "/binaryen-version_"@ + BINARYEN_VERSION@ + "-"@ + release_arch(arch) + "-"@ + os
        + ".tar.gz"@
}

/// Where binaryen's release for `os` and `arch` is downloaded from.
pub fn wasm_opt_url(os: &str, arch: &str) -> (r: String)
    ensures
        r@ == wasm_opt_url_spec(os@, arch@),
{
    let arch = if same_text(arch, "aarch64") { "arm64" } else { arch };
    let mut r = String::from_str("https://github.com/WebAssembly/binaryen/releases/download/version_");
    r.append(BINARYEN_VERSION);
    r.append("/binaryen-version_");
    r.append(BINARYEN_VERSION);
    r.append("-");
    r.append(arch);
    r.append("-");
    r.append(os);
    r.append(".tar.gz");
    r
}

impl WasmOpt {
    /// Options with the given optimization level, no shrinking and no debug
    /// information.
    pub fn level(optimization_level: u32) -> (r: WasmOpt)
        ensures
            r.optimization_level == optimization_level,
            r.shrink_level == 0,
            !r.debug_info,
    {
        WasmOpt { optimization_level, shrink_level: 0, debug_info: false }
    }

    /// Sets the shrink level.
    pub fn shrink(self, shrink_level: u32) -> (r: WasmOpt)
        ensures
            r.shrink_level == shrink_level,
            r.optimization_level == self.optimization_level,
            r.debug_info == self.debug_info,
    {
        WasmOpt { shrink_level, ..self }
    }

    /// Keeps debug information.
    pub fn debug(self) -> (r: WasmOpt)
        ensures
            r.debug_info,
            r.optimization_level == self.optimization_level,
            r.shrink_level == self.shrink_level,
    {
        WasmOpt { debug_info: true, ..self }
    }

    /// The file `wasm-opt` writes for `input`, which then takes its place.
    pub fn output_path(input: &FsPath) -> (r: FsPath)
        ensures
            r@ == path_with_extension(input@, "opt"@),
    {
        input.with_extension("opt")
    }

    /// The arguments of `wasm-opt` that optimize `input`.
    pub fn args(&self, input: &FsPath) -> (r: Vec<String>)
        ensures
            views(r@) == wasm_opt_args(*self, input@),
    {
        let mut out: Vec<String> = Vec::new();
        out.push(input.to_text());
        out.push(String::from_str("-o"));
        out.push(WasmOpt::output_path(input).to_text());
        out.push(String::from_str("-O"));
        out.push(String::from_str("-ol"));
        out.push(decimal(self.optimization_level as u64));
        out.push(String::from_str("-s"));
        out.push(decimal(self.shrink_level as u64));
        if self.debug_info {
            out.push(String::from_str("-g"));
        }
        assert(views(out@) =~= wasm_opt_args(*self, input@));
        out
    }
}

} // verus!
