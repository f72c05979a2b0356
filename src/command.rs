use vstd::prelude::*;

use crate::path::{FsPath, PathV};
use crate::text::views;

verus! {

/// The program a command runs.
pub enum Program {
    /// The xtask executable that is running now.
    Xtask,
    /// A program found by name or path.
    Named { name: String },
}

/// A command to run: its program, arguments and working directory.
pub struct CommandSpec {
    pub program: Program,
    pub args: Vec<String>,
    pub current_dir: Option<FsPath>,
}

/// Text pushed after `v`, as views.
fn push_text(v: &mut Vec<String>, s: &str)
    ensures
        views(final(v)@) == views(old(v)@).push(s@),
{
    let ghost before = v@;
    v.push(s.to_owned());
    assert(views(v@) =~= views(before).push(s@));
}

impl CommandSpec {
    pub open spec fn arg_views(&self) -> Seq<Seq<char>> {
        views(self.args@)
    }

    pub open spec fn dir_view(&self) -> Option<PathV> {
        match self.current_dir {
            Some(d) => Some(d@),
            None => None,
        }
    }

    /// A command that runs the named program with no arguments.
    pub fn new(program: &str) -> (r: CommandSpec)
        ensures
            r.program matches Program::Named { name } && name@ == program@,
            r.arg_views() == Seq::<Seq<char>>::empty(),
            r.current_dir is None,
    {
        let r = CommandSpec {
            program: Program::Named { name: program.to_owned() },
            args: Vec::new(),
            current_dir: None,
        };
        assert(r.arg_views() =~= Seq::<Seq<char>>::empty());
        r
    }

    /// A command that runs the xtask executable with no arguments.
    pub fn xtask() -> (r: CommandSpec)
        ensures
            r.program is Xtask,
            r.arg_views() == Seq::<Seq<char>>::empty(),
            r.current_dir is None,
    {
        let r = CommandSpec { program: Program::Xtask, args: Vec::new(), current_dir: None };
        assert(r.arg_views() =~= Seq::<Seq<char>>::empty());
        r
    }

    /// Adds an argument.
    pub fn arg(&mut self, a: &str)
        ensures
            final(self).arg_views() == old(self).arg_views().push(a@),
            final(self).program == old(self).program,
            final(self).dir_view() == old(self).dir_view(),
    {
        push_text(&mut self.args, a);
    }

    /// Adds arguments, in order.
    pub fn args(&mut self, more: Vec<String>)
        ensures
            final(self).arg_views() == old(self).arg_views() + views(more@),
            final(self).program == old(self).program,
            final(self).dir_view() == old(self).dir_view(),
    {
        let ghost before = self.args@;
        let mut more = more;
        let ghost added = more@;
        self.args.append(&mut more);
        assert(views(self.args@) =~= views(before) + views(added));
    }

    /// Sets the working directory.
    pub fn current_dir(&mut self, dir: FsPath)
        ensures
            final(self).dir_view() == Some(dir@),
            final(self).arg_views() == old(self).arg_views(),
            final(self).program == old(self).program,
    {
        self.current_dir = Some(dir);
    }
}

/// The command that builds the project for Wasm:
/// `cargo build --target wasm32-unknown-unknown`.
pub fn default_build_command() -> (r: CommandSpec)
    ensures
        r.program matches Program::Named { name } && name@ == "cargo"@,
        r.arg_views() == seq!["build"@, "--target"@, "wasm32-unknown-unknown"@],
        r.current_dir is None,
{
    let mut r = CommandSpec::new("cargo");
    r.arg("build");
    r.arg("--target");
    r.arg("wasm32-unknown-unknown");
    assert(r.arg_views() =~= seq!["build"@, "--target"@, "wasm32-unknown-unknown"@]);
    r
}

} // verus!
