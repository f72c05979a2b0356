use vstd::prelude::*;

use crate::http::{head_text, response_head, Status};
use crate::path::{parse_path, path_extension, path_join, FsPath, PathV};
use crate::path::{last_dot, normal_only};
use crate::text::{same_text, split_where, views, Sep};

verus! {

/// What the filesystem holds at a path.
#[derive(Clone, Copy, Debug, PartialEq, Eq, Structural)]
pub enum EntryKind {
    /// A file of this many bytes.
    File { len: u64 },
    Dir,
}

/// One path and what stands there.
pub struct Entry {
    pub path: FsPath,
    pub kind: EntryKind,
}

/// What is known of the filesystem under the served root; a path that no
/// entry names does not exist.
pub struct Listing {
    pub entries: Vec<Entry>,
}

pub open spec fn entry_views(es: Seq<Entry>) -> Seq<(PathV, EntryKind)> {
    es.map_values(|e: Entry| (e.path@, e.kind))
}

/// What the first entry for `p` says stands there.
pub open spec fn lookup(es: Seq<(PathV, EntryKind)>, p: PathV) -> Option<EntryKind>
    decreases es.len(),
{
    if es.len() == 0 {
        None
    } else if es[0].0 == p {
        Some(es[0].1)
    } else {
        lookup(es.drop_first(), p)
    }
}

pub open spec fn is_file(es: Seq<(PathV, EntryKind)>, p: PathV) -> bool {
    lookup(es, p) matches Some(EntryKind::File { .. })
}

pub open spec fn is_dir(es: Seq<(PathV, EntryKind)>, p: PathV) -> bool {
    lookup(es, p) == Some(EntryKind::Dir)
}

pub open spec fn exists_at(es: Seq<(PathV, EntryKind)>, p: PathV) -> bool {
    lookup(es, p) is Some
}

impl Listing {
    pub open spec fn view_entries(&self) -> Seq<(PathV, EntryKind)> {
        entry_views(self.entries@)
    }

    /// What stands at `p`, if anything.
    pub fn lookup(&self, p: &FsPath) -> (r: Option<EntryKind>)
        ensures
            r == lookup(self.view_entries(), p@),
    {
        let ghost es = self.view_entries();
        assert(es.subrange(0, es.len() as int) =~= es);
        let mut i: usize = 0;
        while i < self.entries.len()
            invariant
                i <= self.entries@.len(),
                es == self.view_entries(),
                es.len() == self.entries@.len(),
                lookup(es, p@) == lookup(es.subrange(i as int, es.len() as int), p@),
            decreases self.entries@.len() - i,
        {
            let e = &self.entries[i];
            let ghost rest = es.subrange(i as int, es.len() as int);
            assert(rest[0] == (e.path@, e.kind));
            assert(rest.drop_first() =~= es.subrange(i as int + 1, es.len() as int));
            if e.path.same_as(p) {
                return Some(e.kind);
            }
            i = i + 1;
        }
        None
    }
}

/// The content type for a file extension.
pub open spec fn content_type_for(ext: Option<Seq<char>>) -> Seq<char> {
    if ext == Some("html"@) {
        "text/html;charset=utf-8"@
    } else if ext == Some("css"@) {
        "text/css;charset=utf-8"@
    } else if ext == Some("js"@) {
        "application/javascript"@
    } else if ext == Some("wasm"@) {
        "application/wasm"@
    } else {
        "application/octet-stream"@
    }
}

/// The content type of the file at `path`, by its extension alone.
pub fn content_type(path: &FsPath) -> (r: String)
    ensures
        r@ == content_type_for(path_extension(path@)),
{
    match path.extension() {
        Some(e) => {
            if same_text(e.as_str(), "html") {
                String::from_str("text/html;charset=utf-8")
            } else if same_text(e.as_str(), "css") {
                String::from_str("text/css;charset=utf-8")
            } else if same_text(e.as_str(), "js") {
                String::from_str("application/javascript")
            } else if same_text(e.as_str(), "wasm") {
                String::from_str("application/wasm")
            } else {
                String::from_str("application/octet-stream")
            }
        },
        None => String::from_str("application/octet-stream"),
    }
}

/// A request as the file server sees it.
pub struct Request {
    /// Path of the request, without its query.
    pub path: String,
    /// The request header.
    pub header: String,
    /// The directory that is served.
    pub dist_dir_path: FsPath,
    /// The file, relative to the served directory, that answers a request
    /// for a file that does not exist.
    pub not_found_path: Option<FsPath>,
}

/// Why a request could not be resolved to a file.
pub enum ResolveError {
    /// The request path leads out of the served directory: some `..` in it
    /// has no component before it to cancel.
    Traversal,
    /// The request names a directory that holds no index file.
    NoIndex { dir: FsPath },
}

/// Where a request leads.
pub enum Resolution {
    /// The file to send, its length and its content type.
    Found { path: FsPath, len: u64, content_type: String },
    /// Nothing is to be sent from this path.
    Missing { path: FsPath },
}

/// The component `..`.
pub open spec fn is_parent(c: Seq<char>) -> bool {
    c == seq!['.', '.']
}

/// `comps` with each `..` removed together with the component it cancels,
/// the nearest one before it still standing; `None` when a `..` has no such
/// component, so that the path leads out of where it starts.
pub open spec fn resolve_parents(comps: Seq<Seq<char>>) -> Option<Seq<Seq<char>>>
    decreases comps.len(),
{
    if comps.len() == 0 {
        Some(Seq::<Seq<char>>::empty())
    } else {
        match resolve_parents(comps.drop_last()) {
            None => None,
            Some(kept) => if is_parent(comps.last()) {
                if kept.len() == 0 {
                    None
                } else {
                    Some(kept.drop_last())
                }
            } else {
                Some(kept.push(comps.last()))
            },
        }
    }
}

/// `p` leads out of where it starts: some leading part of it holds more
/// `..` than named components.
pub open spec fn escapes(p: PathV) -> bool {
    resolve_parents(p.1) is None
}

/// The request path as a path relative to the served directory, with each
/// `..` resolved: slashes around it do not count. `None` when it leads out
/// of the served directory.
pub open spec fn relative_request(rp: Seq<char>) -> Option<PathV> {
    match resolve_parents(parse_path(rp).1) {
        Some(comps) => Some((false, comps)),
        None => None,
    }
}

/// Once a leading part of `s` leads out, all of `s` does.
proof fn lemma_escape_extends(s: Seq<Seq<char>>, i: int)
    requires
        0 <= i <= s.len(),
        resolve_parents(s.subrange(0, i)) is None,
    ensures
        resolve_parents(s) is None,
    decreases s.len(),
{
    if i == s.len() {
        assert(s.subrange(0, i) =~= s);
    } else {
        assert(s.drop_last().subrange(0, i) =~= s.subrange(0, i));
        lemma_escape_extends(s.drop_last(), i);
    }
}

/// The path a request names, before any fallback: the directory's index
/// file where it names a directory.
pub open spec fn target_path(es: Seq<(PathV, EntryKind)>, full: PathV) -> Option<PathV> {
    if is_dir(es, full) {
        let html = path_join(full, (false, seq!["index.html"@]));
        let htm = path_join(full, (false, seq!["index.htm"@]));
        if exists_at(es, html) {
            Some(html)
        } else if exists_at(es, htm) {
            Some(htm)
        } else {
            None
        }
    } else {
        Some(full)
    }
}

/// The outcome of resolving request path `rp` under `root`: `Err(true)` for
/// a path that leads out of the served directory, `Err(false)` for a directory with no index,
/// else the path to send and, when it is a file, its length.
pub open spec fn resolve_spec(
    root: PathV,
    rp: Seq<char>,
    fallback: Option<PathV>,
    es: Seq<(PathV, EntryKind)>,
) -> Result<(PathV, Option<u64>), bool> {
    match relative_request(rp) {
        None => Err(true),
        Some(rel) => match target_path(es, path_join(root, rel)) {
            None => Err(false),
            Some(t) => {
                let chosen = match fallback {
                    Some(f) => if is_file(es, t) {
                        t
                    } else {
                        path_join(root, f)
                    },
                    None => t,
                };
                match lookup(es, chosen) {
                    Some(EntryKind::File { len }) => Ok((chosen, Some(len))),
                    _ => Ok((chosen, None)),
                }
            },
        },
    }
}

/// The components with each `..` resolved, or `None` when some `..` has
/// nothing before it to cancel.
fn resolve_parent_components(comps: &Vec<String>) -> (r: Option<Vec<String>>)
    ensures
        r is None <==> resolve_parents(views(comps@)) is None,
        r matches Some(v) ==> resolve_parents(views(comps@)) == Some(views(v@)),
{
    let ghost all = views(comps@);
    let mut kept: Vec<String> = Vec::new();
    let mut i: usize = 0;
    assert(all.subrange(0, 0) =~= Seq::<Seq<char>>::empty());
    assert(views(kept@) =~= Seq::<Seq<char>>::empty());
    while i < comps.len()
        invariant
            i <= comps@.len(),
            all == views(comps@),
            all.len() == comps@.len(),
            resolve_parents(all.subrange(0, i as int)) == Some(views(kept@)),
        decreases comps@.len() - i,
    {
        let ghost before = kept@;
        let ghost upto = all.subrange(0, i as int + 1);
        assert(upto.drop_last() =~= all.subrange(0, i as int));
        let c = comps[i].as_str();
        assert(upto.last() == c@);
        let parent = c.unicode_len() == 2 && c.get_char(0) == '.' && c.get_char(1) == '.';
        proof {
            if parent {
                assert(c@ =~= seq!['.', '.']);
            }
            if c@ == seq!['.', '.'] {
                assert(c@[0] == '.' && c@[1] == '.');
            }
        }
        if parent {
            if kept.len() == 0 {
                proof {
                    lemma_escape_extends(all, i as int + 1);
                }
                return None;
            }
            kept.pop();
            assert(views(kept@) =~= views(before).drop_last());
        } else {
            kept.push(comps[i].clone());
            assert(views(kept@) =~= views(before).push(c@));
        }
        i = i + 1;
    }
    assert(all.subrange(0, all.len() as int) =~= all);
    Some(kept)
}

/// The path of an index file, `index.html` or `index.htm`.
fn index_file(dir: &FsPath, html: bool) -> (r: FsPath)
    ensures
        r@ == path_join(
            dir@,
            (false, seq![if html { "index.html"@ } else { "index.htm"@ }]),
        ),
{
    let name = if html { String::from_str("index.html") } else { String::from_str("index.htm") };
    let mut comps: Vec<String> = Vec::new();
    comps.push(name);
    let file = FsPath { absolute: false, components: comps };
    assert(file@.1 =~= seq![name@]);
    dir.join(&file)
}

impl Request {
    /// The path under the served directory that the request names; `None`
    /// when the request path leads out of it.
    pub fn full_path(&self) -> (r: Option<FsPath>)
        ensures
            r is None <==> relative_request(self.path@) is None,
            r matches Some(p) ==> p@ == path_join(
                self.dist_dir_path@,
                relative_request(self.path@)->0,
            ),
    {
        let parsed = FsPath::new(self.path.as_str());
        match resolve_parent_components(&parsed.components) {
            None => None,
            Some(comps) => {
                let rel = FsPath { absolute: false, components: comps };
                Some(self.dist_dir_path.join(&rel))
            },
        }
    }

    /// The paths whose entries decide the answer: the named path, the two
    /// index files under it, and the fallback file. None for a request path
    /// that leads out of the served directory, which is refused whatever
    /// the filesystem holds.
    pub fn probe_paths(&self) -> (r: Vec<FsPath>)
        ensures
            relative_request(self.path@) is None ==> r@.len() == 0,
            relative_request(self.path@) matches Some(rel) ==> {
                &&& r@.len() >= 3
                &&& r@[0]@ == path_join(self.dist_dir_path@, rel)
                &&& r@[1]@ == path_join(r@[0]@, (false, seq!["index.html"@]))
                &&& r@[2]@ == path_join(r@[0]@, (false, seq!["index.htm"@]))
                &&& (r@.len() == 3 <==> self.not_found_path is None)
                &&& (self.not_found_path matches Some(f) ==> r@.len() == 4 && r@[3]@ == path_join(
                    self.dist_dir_path@,
                    f@,
                ))
            },
    {
        let full = match self.full_path() {
            Some(full) => full,
            None => return Vec::new(),
        };
        let html = index_file(&full, true);
        let htm = index_file(&full, false);
        let mut out: Vec<FsPath> = Vec::new();
        out.push(full);
        out.push(html);
        out.push(htm);
        match &self.not_found_path {
            Some(f) => {
                out.push(self.dist_dir_path.join(f));
            },
            None => {},
        }
        out
    }

    /// Resolves the request against what `listing` says of the filesystem.
    /// A path that leads out of the served directory is refused; each `..`
    /// in the others cancels the component before it; a
    /// directory is answered by its `index.html`, else its `index.htm`,
    /// else refused; where the path is not a file and a fallback is set, the
    /// fallback is taken.
    pub fn resolve(&self, listing: &Listing) -> (r: Result<Resolution, ResolveError>)
        ensures
            match resolve_spec(
                self.dist_dir_path@,
                self.path@,
                match self.not_found_path {
                    Some(f) => Some(f@),
                    None => None,
                },
                listing.view_entries(),
            ) {
                Err(true) => r matches Err(ResolveError::Traversal),
                Err(false) => r matches Err(ResolveError::NoIndex { dir }) && dir@ == path_join(
                    self.dist_dir_path@,
                    relative_request(self.path@)->0,
                ),
                Ok((p, Some(len))) => r matches Ok(Resolution::Found { path, len: l, content_type })
                    && path@ == p && l == len && content_type@ == content_type_for(
                    path_extension(p),
                ),
                Ok((p, None)) => r matches Ok(Resolution::Missing { path }) && path@ == p,
            },
    {
        let full = match self.full_path() {
            Some(full) => full,
            None => return Err(ResolveError::Traversal),
        };
        let target = match listing.lookup(&full) {
            Some(EntryKind::Dir) => {
                let html = index_file(&full, true);
                if listing.lookup(&html).is_some() {
                    html
                } else {
                    let htm = index_file(&full, false);
                    if listing.lookup(&htm).is_some() {
                        htm
                    } else {
                        return Err(ResolveError::NoIndex { dir: full });
                    }
                }
            },
            _ => full,
        };
        let chosen = match &self.not_found_path {
            Some(f) => {
                match listing.lookup(&target) {
                    Some(EntryKind::File { .. }) => target,
                    _ => self.dist_dir_path.join(f),
                }
            },
            None => target,
        };
        match listing.lookup(&chosen) {
            Some(EntryKind::File { len }) => {
                let content_type = content_type(&chosen);
                Ok(Resolution::Found { path: chosen, len, content_type })
            },
            _ => Ok(Resolution::Missing { path: chosen }),
        }
    }
}

/// A response of the file server: its status and, for a file, the file
/// with its length and content type.
pub struct Response {
    pub status: Status,
    pub body: Option<(FsPath, u64, String)>,
}

/// The answer to a request path: a file is sent with `200`; a path where no
/// file is found gets `404`; a request that cannot be resolved gets `500`.
pub open spec fn default_outcome(
    root: PathV,
    rp: Seq<char>,
    fallback: Option<PathV>,
    es: Seq<(PathV, EntryKind)>,
) -> (Status, Option<(PathV, u64, Seq<char>)>) {
    match resolve_spec(root, rp, fallback, es) {
        Err(_) => (Status::InternalServerError, None),
        Ok((p, Some(len))) => (Status::Success, Some((p, len, content_type_for(path_extension(p))))),
        Ok((_, None)) => (Status::NotFound, None),
    }
}

impl Response {
    pub open spec fn view_body(&self) -> Option<(PathV, u64, Seq<char>)> {
        match self.body {
            Some((p, len, t)) => Some((p@, len, t@)),
            None => None,
        }
    }

    /// The head of the response, ready to be written before the body.
    pub fn head(&self) -> (r: String)
        ensures
            r@ == head_text(
                self.status,
                match self.view_body() {
                    Some((_, len, t)) => Some((len, t)),
                    None => None,
                },
            ),
    {
        match &self.body {
            Some((_, len, t)) => response_head(self.status, Some((*len, t.as_str()))),
            None => response_head(self.status, None),
        }
    }
}

impl Request {
    pub open spec fn fallback(&self) -> Option<PathV> {
        match self.not_found_path {
            Some(f) => Some(f@),
            None => None,
        }
    }

    /// The answer of the built-in file server to this request.
    pub fn default_response(&self, listing: &Listing) -> (r: Response)
        ensures
            (r.status, r.view_body()) == default_outcome(
                self.dist_dir_path@,
                self.path@,
                self.fallback(),
                listing.view_entries(),
            ),
    {
        match self.resolve(listing) {
            Err(_) => Response { status: Status::InternalServerError, body: None },
            Ok(Resolution::Found { path, len, content_type }) => Response {
                status: Status::Success,
                body: Some((path, len, content_type)),
            },
            Ok(Resolution::Missing { .. }) => Response { status: Status::NotFound, body: None },
        }
    }
}

/// A request for `/` is answered with the served directory's `index.html`,
/// as HTML, when the directory holds that file.
pub proof fn lemma_root_serves_index(
    root: PathV,
    fallback: Option<PathV>,
    es: Seq<(PathV, EntryKind)>,
    len: u64,
)
    requires
        lookup(es, root) == Some(EntryKind::Dir),
        lookup(es, path_join(root, (false, seq!["index.html"@]))) == Some(
            EntryKind::File { len },
        ),
    ensures
        default_outcome(root, "/"@, fallback, es) == (
            Status::Success,
            Some((path_join(root, (false, seq!["index.html"@])), len, "text/html;charset=utf-8"@)),
        ),
{
    reveal_strlit("/");
    reveal_strlit("index.html");
    reveal_strlit("html");
    let s = "/"@;
    let e = Seq::<char>::empty();
    assert(s.drop_last() =~= e);
    assert(split_where(e, Sep::Slash) == seq![e]);
    assert(s.last() == '/');
    let pieces = split_where(s, Sep::Slash);
    assert(pieces == seq![e].push(e));
    assert(pieces.drop_last() =~= seq![e]);
    assert(seq![e].drop_last() =~= Seq::<Seq<char>>::empty());
    assert(normal_only(seq![e]) == normal_only(Seq::<Seq<char>>::empty()));
    assert(normal_only(pieces) =~= Seq::<Seq<char>>::empty());
    assert(resolve_parents(Seq::<Seq<char>>::empty()) == Some(Seq::<Seq<char>>::empty()));
    assert(relative_request(s) == Some((false, Seq::<Seq<char>>::empty())));
    assert(path_join(root, relative_request(s)->0) =~= root);
    let name = "index.html"@;
    assert(name.drop_last() =~= "index.htm"@) by {
        reveal_strlit("index.htm");
    }
    let n6 = seq!['i', 'n', 'd', 'e', 'x', '.'];
    let n7 = n6.push('h');
    let n8 = n7.push('t');
    let n9 = n8.push('m');
    assert(name =~= n9.push('l'));
    assert(n9.push('l').drop_last() =~= n9);
    assert(n9.drop_last() =~= n8);
    assert(n8.drop_last() =~= n7);
    assert(n7.drop_last() =~= n6);
    assert(last_dot(n6) == Some(5int));
    assert(last_dot(n7) == Some(5int));
    assert(last_dot(n8) == Some(5int));
    assert(last_dot(n9) == Some(5int));
    assert(last_dot(name) == Some(5int));
    assert(name.subrange(6, 10) =~= "html"@);
}

/// A request for a path where nothing stands, with no fallback, is
/// answered with `404`, `..` components within the served directory
/// included.
pub proof fn lemma_missing_is_not_found(root: PathV, rp: Seq<char>, es: Seq<(PathV, EntryKind)>)
    requires
        !escapes(parse_path(rp)),
        lookup(es, path_join(root, relative_request(rp)->0)) is None,
    ensures
        default_outcome(root, rp, None, es).0 == Status::NotFound,
{
}

/// A request for a file whose extension is `wasm` is answered with that
/// file as `application/wasm`, whatever it holds.
pub proof fn lemma_wasm_content_type(
    root: PathV,
    rp: Seq<char>,
    fallback: Option<PathV>,
    es: Seq<(PathV, EntryKind)>,
    len: u64,
)
    requires
        !escapes(parse_path(rp)),
        lookup(es, path_join(root, relative_request(rp)->0)) == Some(EntryKind::File { len }),
        path_extension(path_join(root, relative_request(rp)->0)) == Some("wasm"@),
    ensures
        default_outcome(root, rp, fallback, es) == (
            Status::Success,
            Some((path_join(root, relative_request(rp)->0), len, "application/wasm"@)),
        ),
{
    reveal_strlit("wasm");
    reveal_strlit("html");
    reveal_strlit("css");
    reveal_strlit("js");
    assert("wasm"@[0] != "html"@[0]);
    assert("wasm"@.len() != "css"@.len());
    assert("wasm"@.len() != "js"@.len());
}

} // verus!
