use vstd::prelude::*;

use crate::path::{path_rest, path_starts_with, FsPath, PathV};
use crate::workspace::Workspace;

verus! {

pub open spec fn path_views(v: Seq<FsPath>) -> Seq<PathV> {
    v.map_values(|p: FsPath| p@)
}

/// The debounce used when none is set: two seconds.
pub const DEFAULT_DEBOUNCE_MS: u64 = 2000;

/// Some entry of `list` is a leading part of `p`.
pub open spec fn under_any(list: Seq<PathV>, p: PathV) -> bool {
    exists|i: int| 0 <= i < list.len() && path_starts_with(p, #[trigger] list[i])
}

/// `p` is excluded: it lies under an excluded path, or it lies under the
/// workspace root and what follows the root lies under a workspace exclusion.
pub open spec fn excluded(
    exclude: Seq<PathV>,
    workspace_exclude: Seq<PathV>,
    root: PathV,
    p: PathV,
) -> bool {
    ||| under_any(exclude, p)
    ||| (path_starts_with(p, root) && under_any(workspace_exclude, path_rest(p, root)))
}

/// Some component starts with `.`.
pub open spec fn dotted(comps: Seq<Seq<char>>) -> bool {
    exists|i: int| 0 <= i < comps.len() && (#[trigger] comps[i]).len() > 0 && comps[i][0] == '.'
}

/// `p` lies under `base`, and some component after `base` starts with `.`.
pub open spec fn hidden_under(p: PathV, base: PathV) -> bool {
    path_starts_with(p, base) && dotted(path_rest(p, base).1)
}

/// `roots[k]` is a root under which `p` lies, and no such root is longer.
pub open spec fn nearest_root(roots: Seq<PathV>, p: PathV, k: int) -> bool {
    &&& 0 <= k < roots.len()
    &&& path_starts_with(p, roots[k])
    &&& forall|j: int|
        0 <= j < roots.len() && path_starts_with(p, #[trigger] roots[j]) ==> roots[j].1.len()
            <= roots[k].1.len()
}

/// `p` is hidden: relative to the nearest watch root that holds it (or to the
/// workspace root when there are no watch roots) some component starts with
/// `.`. A path under no root is not hidden.
pub open spec fn hidden(roots: Seq<PathV>, workspace_root: PathV, p: PathV) -> bool {
    if roots.len() == 0 {
        hidden_under(p, workspace_root)
    } else {
        exists|k: int| nearest_root(roots, p, k) && hidden_under(p, roots[k])
    }
}

/// Two roots that hold `p` and have as many components are the same.
pub proof fn lemma_same_length_roots(p: PathV, a: PathV, b: PathV)
    requires
        path_starts_with(p, a),
        path_starts_with(p, b),
        a.1.len() == b.1.len(),
    ensures
        a == b,
{
    assert(a.1 =~= b.1);
}

/// Watches over the project's files and relaunches a command when they
/// change.
pub struct Watch {
    /// Roots to watch; none means the workspace root.
    pub watch_paths: Vec<FsPath>,
    /// Paths whose changes are ignored.
    pub exclude_paths: Vec<FsPath>,
    /// Paths, relative to the workspace root, whose changes are ignored.
    pub workspace_exclude_paths: Vec<FsPath>,
    /// Least time, in milliseconds, between two launches of the command.
    pub debounce: Option<u64>,
}

impl Watch {
    pub open spec fn roots(&self) -> Seq<PathV> {
        path_views(self.watch_paths@)
    }

    pub open spec fn excludes(&self) -> Seq<PathV> {
        path_views(self.exclude_paths@)
    }

    pub open spec fn workspace_excludes(&self) -> Seq<PathV> {
        path_views(self.workspace_exclude_paths@)
    }

    /// The debounce in force.
    pub open spec fn debounce_ms(&self) -> u64 {
        match self.debounce {
            Some(d) => d,
            None => DEFAULT_DEBOUNCE_MS,
        }
    }

    /// A watch of the whole workspace with nothing excluded.
    pub fn new() -> (r: Watch)
        ensures
            r.roots() == Seq::<PathV>::empty(),
            r.excludes() == Seq::<PathV>::empty(),
            r.workspace_excludes() == Seq::<PathV>::empty(),
            r.debounce is None,
    {
        let r = Watch {
            watch_paths: Vec::new(),
            exclude_paths: Vec::new(),
            workspace_exclude_paths: Vec::new(),
            debounce: None,
        };
        assert(r.roots() =~= Seq::<PathV>::empty());
        assert(r.excludes() =~= Seq::<PathV>::empty());
        assert(r.workspace_excludes() =~= Seq::<PathV>::empty());
        r
    }

    /// Adds a path that will be monitored.
    pub fn watch_path(self, path: FsPath) -> (r: Watch)
        ensures
            r.roots() == self.roots().push(path@),
            r.excludes() == self.excludes(),
            r.workspace_excludes() == self.workspace_excludes(),
            r.debounce == self.debounce,
    {
        let mut r = self;
        r.watch_paths.push(path);
        assert(r.roots() =~= self.roots().push(path@));
        r
    }

    /// Adds paths that will be monitored.
    pub fn watch_paths(self, paths: Vec<FsPath>) -> (r: Watch)
        ensures
            r.roots() == self.roots() + path_views(paths@),
            r.excludes() == self.excludes(),
            r.workspace_excludes() == self.workspace_excludes(),
            r.debounce == self.debounce,
    {
        let mut r = self;
        let mut more = paths;
        r.watch_paths.append(&mut more);
        assert(r.roots() =~= self.roots() + path_views(paths@));
        r
    }

    /// Adds a path whose changes are ignored.
    pub fn exclude_path(self, path: FsPath) -> (r: Watch)
        ensures
            r.excludes() == self.excludes().push(path@),
            r.roots() == self.roots(),
            r.workspace_excludes() == self.workspace_excludes(),
            r.debounce == self.debounce,
    {
        let mut r = self;
        r.exclude_paths.push(path);
        assert(r.excludes() =~= self.excludes().push(path@));
        r
    }

    /// Adds paths whose changes are ignored.
    pub fn exclude_paths(self, paths: Vec<FsPath>) -> (r: Watch)
        ensures
            r.excludes() == self.excludes() + path_views(paths@),
            r.roots() == self.roots(),
            r.workspace_excludes() == self.workspace_excludes(),
            r.debounce == self.debounce,
    {
        let mut r = self;
        let mut more = paths;
        r.exclude_paths.append(&mut more);
        assert(r.excludes() =~= self.excludes() + path_views(paths@));
        r
    }

    /// Adds a path, relative to the workspace root, whose changes are ignored.
    pub fn exclude_workspace_path(self, path: FsPath) -> (r: Watch)
        ensures
            r.workspace_excludes() == self.workspace_excludes().push(path@),
            r.roots() == self.roots(),
            r.excludes() == self.excludes(),
            r.debounce == self.debounce,
    {
        let mut r = self;
        r.workspace_exclude_paths.push(path);
        assert(r.workspace_excludes() =~= self.workspace_excludes().push(path@));
        r
    }

    /// Adds paths, relative to the workspace root, whose changes are ignored.
    pub fn exclude_workspace_paths(self, paths: Vec<FsPath>) -> (r: Watch)
        ensures
            r.workspace_excludes() == self.workspace_excludes() + path_views(paths@),
            r.roots() == self.roots(),
            r.excludes() == self.excludes(),
            r.debounce == self.debounce,
    {
        let mut r = self;
        let mut more = paths;
        r.workspace_exclude_paths.append(&mut more);
        assert(r.workspace_excludes() =~= self.workspace_excludes() + path_views(paths@));
        r
    }

    /// Sets the least time, in milliseconds, between two launches.
    pub fn debounce(self, millis: u64) -> (r: Watch)
        ensures
            r.debounce == Some(millis),
            r.roots() == self.roots(),
            r.excludes() == self.excludes(),
            r.workspace_excludes() == self.workspace_excludes(),
    {
        let mut r = self;
        r.debounce = Some(millis);
        r
    }

    /// The debounce in force: the one set, or two seconds.
    pub fn debounce_millis(&self) -> (r: u64)
        ensures
            r == self.debounce_ms(),
    {
        match self.debounce {
            Some(d) => d,
            None => DEFAULT_DEBOUNCE_MS,
        }
    }

    /// Whether changes at `path` are to be ignored because of an exclusion.
    pub fn is_excluded_path(&self, workspace: &Workspace, path: &FsPath) -> (r: bool)
        ensures
            r == excluded(
                self.excludes(),
                self.workspace_excludes(),
                workspace.workspace_root@,
                path@,
            ),
    {
        if any_leads(&self.exclude_paths, path) {
            return true;
        }
        match path.strip_prefix(&workspace.workspace_root) {
            Some(rest) => any_leads(&self.workspace_exclude_paths, &rest),
            None => false,
        }
    }

    /// Whether changes at `path` are to be ignored because it is hidden.
    pub fn is_hidden_path(&self, workspace: &Workspace, path: &FsPath) -> (r: bool)
        ensures
            r == hidden(self.roots(), workspace.workspace_root@, path@),
    {
        if self.watch_paths.len() == 0 {
            return match path.strip_prefix(&workspace.workspace_root) {
                Some(rest) => has_dotted(&rest.components),
                None => false,
            };
        }
        let ghost roots = self.roots();
        let mut best: Option<usize> = None;
        let mut i: usize = 0;
        while i < self.watch_paths.len()
            invariant
                i <= self.watch_paths@.len(),
                roots == self.roots(),
                roots.len() == self.watch_paths@.len(),
                best matches Some(b) ==> b < i && path_starts_with(path@, roots[b as int]) && (
                forall|j: int|
                    0 <= j < i && path_starts_with(path@, #[trigger] roots[j]) ==> roots[j].1.len()
                        <= roots[b as int].1.len()),
                best is None ==> forall|j: int|
                    0 <= j < i ==> !path_starts_with(path@, #[trigger] roots[j]),
            decreases self.watch_paths@.len() - i,
        {
            let root = &self.watch_paths[i];
            assert(roots[i as int] == root@);
            if path.starts_with(root) {
                match best {
                    None => {
                        best = Some(i);
                    },
                    Some(b) => {
                        assert(roots[b as int] == self.watch_paths@[b as int]@);
                        assert(root.components@.len() == root@.1.len());
                        assert(self.watch_paths@[b as int].components@.len()
                            == roots[b as int].1.len());
                        if root.components.len() > self.watch_paths[b].components.len() {
                            best = Some(i);
                        }
                    },
                }
            }
            i = i + 1;
        }
        match best {
            None => {
                assert(!hidden(roots, workspace.workspace_root@, path@));
                false
            },
            Some(b) => {
                assert(nearest_root(roots, path@, b as int));
                let rest = path.strip_prefix(&self.watch_paths[b]);
                let r = match rest {
                    Some(rest) => has_dotted(&rest.components),
                    None => false,
                };
                proof {
                    let bi = b as int;
                    assert forall|k: int| nearest_root(roots, path@, k) implies roots[k]
                        == roots[bi] by {
                        lemma_same_length_roots(path@, roots[k], roots[bi]);
                    }
                }
                r
            },
        }
    }
}

impl Default for Watch {
    /// A watch of the whole workspace with nothing excluded.
    fn default() -> (r: Watch)
        ensures
            r.roots() == Seq::<PathV>::empty(),
            r.excludes() == Seq::<PathV>::empty(),
            r.workspace_excludes() == Seq::<PathV>::empty(),
            r.debounce is None,
    {
        Watch::new()
    }
}

/// Whether some path of `list` is a leading part of `path`.
fn any_leads(list: &Vec<FsPath>, path: &FsPath) -> (r: bool)
    ensures
        r == under_any(path_views(list@), path@),
{
    let ghost ls = path_views(list@);
    let mut i: usize = 0;
    while i < list.len()
        invariant
            i <= list@.len(),
            ls == path_views(list@),
            ls.len() == list@.len(),
            forall|j: int| 0 <= j < i ==> !path_starts_with(path@, #[trigger] ls[j]),
        decreases list@.len() - i,
    {
        assert(ls[i as int] == list@[i as int]@);
        if path.starts_with(&list[i]) {
            return true;
        }
        i = i + 1;
    }
    false
}

/// Whether some component starts with `.`.
fn has_dotted(comps: &Vec<String>) -> (r: bool)
    ensures
        r == dotted(crate::text::views(comps@)),
{
    let ghost cs = crate::text::views(comps@);
    let mut i: usize = 0;
    while i < comps.len()
        invariant
            i <= comps@.len(),
            cs == crate::text::views(comps@),
            cs.len() == comps@.len(),
            forall|j: int| 0 <= j < i ==> !((#[trigger] cs[j]).len() > 0 && cs[j][0] == '.'),
        decreases comps@.len() - i,
    {
        let c = comps[i].as_str();
        assert(cs[i as int] == c@);
        if c.unicode_len() > 0 && c.get_char(0) == '.' {
            return true;
        }
        i = i + 1;
    }
    false
}

/// Changes under an excluded path, or under a workspace exclusion within the
/// workspace root, are excluded.
pub proof fn lemma_excluded_paths(w: &Watch, workspace: &Workspace, p: PathV)
    ensures
        forall|i: int|
            0 <= i < w.excludes().len() && path_starts_with(p, #[trigger] w.excludes()[i])
                ==> excluded(w.excludes(), w.workspace_excludes(), workspace.workspace_root@, p),
        forall|j: int|
            0 <= j < w.workspace_excludes().len() && path_starts_with(p, workspace.workspace_root@)
                && path_starts_with(
                path_rest(p, workspace.workspace_root@),
                #[trigger] w.workspace_excludes()[j],
            ) ==> excluded(w.excludes(), w.workspace_excludes(), workspace.workspace_root@, p),
{
}

/// A path with a component starting with `.` after the watch root in force
/// (the nearest watch root that holds it, or the workspace root when no watch
/// root is set) is hidden.
pub proof fn lemma_dotted_paths_hidden(w: &Watch, workspace: &Workspace, p: PathV)
    ensures
        w.roots().len() == 0 && hidden_under(p, workspace.workspace_root@) ==> hidden(
            w.roots(),
            workspace.workspace_root@,
            p,
        ),
        forall|k: int|
            nearest_root(w.roots(), p, k) && hidden_under(p, #[trigger] w.roots()[k]) ==> hidden(
                w.roots(),
                workspace.workspace_root@,
                p,
            ),
{
}

} // verus!
