use vstd::prelude::*;

use crate::text::{split_text, split_where, views, Sep};

verus! {

/// A path as the contracts see it: rooted or not, and its components.
pub type PathV = (bool, Seq<Seq<char>>);

/// A component that names something: neither empty nor `.`.
pub open spec fn is_normal(c: Seq<char>) -> bool {
    c.len() > 0 && c != seq!['.']
}

/// The pieces that name something, in order.
pub open spec fn normal_only(pieces: Seq<Seq<char>>) -> Seq<Seq<char>>
    decreases pieces.len(),
{
    if pieces.len() == 0 {
        Seq::<Seq<char>>::empty()
    } else {
        let rest = normal_only(pieces.drop_last());
        if is_normal(pieces.last()) {
            rest.push(pieces.last())
        } else {
            rest
        }
    }
}

/// A path read from text: rooted when it starts with `/`; its components are
/// what stands between slashes, with empty ones and `.` left out.
pub open spec fn parse_path(s: Seq<char>) -> PathV {
    (s.len() > 0 && s[0] == '/', normal_only(split_where(s, Sep::Slash)))
}

/// `base` is a leading part of `p`, component by component.
pub open spec fn path_starts_with(p: PathV, base: PathV) -> bool {
    p.0 == base.0 && base.1.len() <= p.1.len() && p.1.subrange(0, base.1.len() as int) == base.1
}

/// What is left of `p` after `base`, as a relative path.
pub open spec fn path_rest(p: PathV, base: PathV) -> PathV {
    (false, p.1.subrange(base.1.len() as int, p.1.len() as int))
}

/// `other` appended to `p`; a rooted `other` replaces `p`.
pub open spec fn path_join(p: PathV, other: PathV) -> PathV {
    if other.0 {
        other
    } else {
        (p.0, p.1 + other.1)
    }
}

/// The last component, unless there is none or it is `..`.
pub open spec fn file_name_of(p: PathV) -> Option<Seq<char>> {
    if p.1.len() == 0 || p.1.last() == seq!['.', '.'] {
        None
    } else {
        Some(p.1.last())
    }
}

/// Index of the last `.` in `name`, if any.
pub open spec fn last_dot(name: Seq<char>) -> Option<int>
    decreases name.len(),
{
    if name.len() == 0 {
        None
    } else if name.last() == '.' {
        Some(name.len() - 1)
    } else {
        last_dot(name.drop_last())
    }
}

/// The extension of a file name: what follows its last `.`, where that dot is
/// not the name's first character.
pub open spec fn name_extension(name: Seq<char>) -> Option<Seq<char>> {
    match last_dot(name) {
        Some(i) => if i > 0 {
            Some(name.subrange(i + 1, name.len() as int))
        } else {
            None
        },
        None => None,
    }
}

/// The file name without its extension.
pub open spec fn name_stem(name: Seq<char>) -> Seq<char> {
    match last_dot(name) {
        Some(i) => if i > 0 {
            name.subrange(0, i)
        } else {
            name
        },
        None => name,
    }
}

pub open spec fn path_extension(p: PathV) -> Option<Seq<char>> {
    match file_name_of(p) {
        Some(name) => name_extension(name),
        None => None,
    }
}

/// `p` with the extension of its file name replaced by `ext` (removed when
/// `ext` is empty); a path without a file name is kept.
pub open spec fn path_with_extension(p: PathV, ext: Seq<char>) -> PathV {
    match file_name_of(p) {
        Some(name) => {
            let new_name = if ext.len() == 0 {
                name_stem(name)
            } else {
                name_stem(name) + seq!['.'] + ext
            };
            (p.0, p.1.update(p.1.len() - 1, new_name))
        },
        None => p,
    }
}

/// A filesystem path as the logic sees it: whether it is rooted, and its
/// components.
pub struct FsPath {
    pub absolute: bool,
    pub components: Vec<String>,
}

impl View for FsPath {
    type V = PathV;

    open spec fn view(&self) -> PathV {
        (self.absolute, views(self.components@))
    }
}

/// A copy of the strings, one for one.
fn copy_strings(v: &Vec<String>) -> (r: Vec<String>)
    ensures
        views(r@) == views(v@),
{
    append_strings(Vec::new(), v)
}

/// `a` followed by copies of `b`.
fn append_strings(a: Vec<String>, b: &Vec<String>) -> (r: Vec<String>)
    ensures
        views(r@) == views(a@) + views(b@),
{
    let mut out = a;
    let ghost start = views(out@);
    let ghost theirs = views(b@);
    let mut i: usize = 0;
    while i < b.len()
        invariant
            i <= b@.len(),
            theirs == views(b@),
            theirs.len() == b@.len(),
            views(out@) == start + theirs.subrange(0, i as int),
        decreases b@.len() - i,
    {
        let ghost before = out@;
        let item = b[i].clone();
        out.push(item);
        assert(views(out@) =~= views(before).push(item@));
        assert(theirs.subrange(0, i as int + 1) =~= theirs.subrange(0, i as int).push(theirs[i as int]));
        assert(views(out@) =~= start + theirs.subrange(0, i as int + 1));
        i = i + 1;
    }
    assert(theirs.subrange(0, theirs.len() as int) =~= theirs);
    out
}

impl FsPath {
    /// Reads a path from text: `/` separates components, a leading `/` makes
    /// it rooted, and empty components and `.` are left out.
    pub fn new(s: &str) -> (r: FsPath)
        ensures
            r@ == parse_path(s@),
    {
        let pieces = split_text(s, Sep::Slash);
        let mut comps: Vec<String> = Vec::new();
        let mut i: usize = 0;
        while i < pieces.len()
            invariant
                i <= pieces@.len(),
                views(comps@) == normal_only(views(pieces@).subrange(0, i as int)),
            decreases pieces@.len() - i,
        {
            let ghost before = comps@;
            let ghost done = views(pieces@).subrange(0, i as int + 1);
            assert(done.drop_last() =~= views(pieces@).subrange(0, i as int));
            let p = &pieces[i];
            let n = p.as_str().unicode_len();
            let keep = n > 0 && !(n == 1 && p.as_str().get_char(0) == '.');
            proof {
                if n == 1 && p@[0] == '.' {
                    assert(p@ =~= seq!['.']);
                }
            }
            if keep {
                comps.push(p.clone());
                assert(views(comps@) =~= views(before).push(p@));
            }
            i = i + 1;
        }
        assert(views(pieces@).subrange(0, pieces@.len() as int) =~= views(pieces@));
        let absolute = s.unicode_len() > 0 && s.get_char(0) == '/';
        FsPath { absolute, components: comps }
    }

    /// A copy of the path.
    pub fn duplicate(&self) -> (r: FsPath)
        ensures
            r@ == self@,
    {
        FsPath { absolute: self.absolute, components: copy_strings(&self.components) }
    }

    /// Whether the two paths are the same, component by component.
    pub fn same_as(&self, other: &FsPath) -> (r: bool)
        ensures
            r == (self@ == other@),
    {
        if self.absolute != other.absolute || self.components.len() != other.components.len() {
            proof {
                if self.components@.len() != other.components@.len() {
                    assert(views(self.components@).len() != views(other.components@).len());
                }
            }
            return false;
        }
        let r = self.starts_with(other);
        proof {
            let mine = views(self.components@);
            let theirs = views(other.components@);
            assert(mine.len() == theirs.len());
            if r {
                assert(mine =~= mine.subrange(0, theirs.len() as int));
            }
            if mine == theirs {
                assert(mine.subrange(0, theirs.len() as int) =~= theirs);
            }
        }
        r
    }

    /// Whether `base` is a leading part of this path, component by component.
    pub fn starts_with(&self, base: &FsPath) -> (r: bool)
        ensures
            r == path_starts_with(self@, base@),
    {
        if self.absolute != base.absolute || base.components.len() > self.components.len() {
            return false;
        }
        let mut i: usize = 0;
        let ghost mine = views(self.components@);
        let ghost theirs = views(base.components@);
        while i < base.components.len()
            invariant
                i <= base.components@.len() <= self.components@.len(),
                mine == views(self.components@),
                theirs == views(base.components@),
                mine.subrange(0, i as int) == theirs.subrange(0, i as int),
            decreases base.components@.len() - i,
        {
            if self.components[i] != base.components[i] {
                assert(mine.subrange(0, theirs.len() as int)[i as int] != theirs[i as int]);
                return false;
            }
            assert(mine.subrange(0, i as int + 1) =~= mine.subrange(0, i as int).push(mine[i as int]));
            assert(theirs.subrange(0, i as int + 1) =~= theirs.subrange(0, i as int).push(
                theirs[i as int],
            ));
            i = i + 1;
        }
        assert(theirs.subrange(0, theirs.len() as int) =~= theirs);
        true
    }

    /// What follows `base` in this path, as a relative path, when `base` is a
    /// leading part of it.
    pub fn strip_prefix(&self, base: &FsPath) -> (r: Option<FsPath>)
        ensures
            r is Some <==> path_starts_with(self@, base@),
            r matches Some(rest) ==> rest@ == path_rest(self@, base@),
    {
        if !self.starts_with(base) {
            return None;
        }
        let mut comps: Vec<String> = Vec::new();
        let mut i: usize = base.components.len();
        let ghost k = base.components@.len() as int;
        let ghost mine = views(self.components@);
        assert(mine.len() == self.components@.len());
        assert(views(base.components@).len() == base.components@.len());
        assert(views(comps@) =~= mine.subrange(k, k));
        while i < self.components.len()
            invariant
                k == base.components@.len(),
                k <= i <= self.components@.len(),
                mine == views(self.components@),
                mine.len() == self.components@.len(),
                views(comps@) == mine.subrange(k, i as int),
            decreases self.components@.len() - i,
        {
            let ghost before = comps@;
            let item = self.components[i].clone();
            comps.push(item);
            assert(views(comps@) =~= views(before).push(item@));
            assert(mine[i as int] == item@);
            assert(mine.subrange(k, i as int + 1) =~= mine.subrange(k, i as int).push(mine[i as int]));
            i = i + 1;
        }
        Some(FsPath { absolute: false, components: comps })
    }

    /// `other` appended to this path; a rooted `other` replaces it.
    pub fn join(&self, other: &FsPath) -> (r: FsPath)
        ensures
            r@ == path_join(self@, other@),
    {
        if other.absolute {
            other.duplicate()
        } else {
            let comps = append_strings(copy_strings(&self.components), &other.components);
            FsPath { absolute: self.absolute, components: comps }
        }
    }

    /// This path followed by the path read from `s`.
    pub fn join_str(&self, s: &str) -> (r: FsPath)
        ensures
            r@ == path_join(self@, parse_path(s@)),
    {
        self.join(&FsPath::new(s))
    }

    /// The last component, unless there is none or it is `..`.
    pub fn file_name(&self) -> (r: Option<&String>)
        ensures
            r matches Some(name) ==> file_name_of(self@) == Some(name@),
            r is None ==> file_name_of(self@) is None,
    {
        let n = self.components.len();
        if n == 0 {
            return None;
        }
        let last = &self.components[n - 1];
        let k = last.as_str().unicode_len();
        if k == 2 && last.as_str().get_char(0) == '.' && last.as_str().get_char(1) == '.' {
            assert(last@ =~= seq!['.', '.']);
            return None;
        }
        proof {
            if last@ == seq!['.', '.'] {
                assert(last@[0] == '.' && last@[1] == '.');
            }
        }
        Some(last)
    }

    /// The extension of the file name, if it has one.
    pub fn extension(&self) -> (r: Option<String>)
        ensures
            r matches Some(e) ==> path_extension(self@) == Some(e@),
            r is None ==> path_extension(self@) is None,
    {
        match self.file_name() {
            None => None,
            Some(name) => match find_last_dot(name.as_str()) {
                Some(i) => {
                    if i > 0 {
                        let n = name.as_str().unicode_len();
                        Some(name.as_str().substring_char(i + 1, n).to_owned())
                    } else {
                        None
                    }
                },
                None => None,
            },
        }
    }

    /// This path with the extension of its file name replaced by `ext`, or
    /// removed when `ext` is empty.
    pub fn with_extension(&self, ext: &str) -> (r: FsPath)
        ensures
            r@ == path_with_extension(self@, ext@),
    {
        match self.file_name() {
            None => self.duplicate(),
            Some(name) => {
                let ghost nm = name@;
                let stem = match find_last_dot(name.as_str()) {
                    Some(i) => if i > 0 {
                        name.as_str().substring_char(0, i).to_owned()
                    } else {
                        name.clone()
                    },
                    None => name.clone(),
                };
                assert(stem@ == name_stem(nm));
                let mut new_name = stem;
                if ext.unicode_len() > 0 {
                    proof {
                        reveal_strlit(".");
                    }
                    new_name.append(".");
                    new_name.append(ext);
                    assert(new_name@ =~= name_stem(nm) + seq!['.'] + ext@);
                }
                let mut comps = copy_strings(&self.components);
                assert(views(comps@).len() == comps@.len());
                let last = comps.len() - 1;
                let ghost before = comps@;
                comps.set(last, new_name);
                proof {
                    assert(views(comps@) =~= views(before).update(last as int, new_name@));
                }
                FsPath { absolute: self.absolute, components: comps }
            },
        }
    }

    /// The path as text: components joined by `/`, after a `/` when rooted.
    pub fn to_text(&self) -> (r: String)
        ensures
            r@ == path_text(self@),
    {
        let mut out = String::new();
        if self.absolute {
            out.append("/");
        }
        proof {
            reveal_strlit("/");
        }
        let mut i: usize = 0;
        let ghost comps = views(self.components@);
        while i < self.components.len()
            invariant
                i <= self.components@.len(),
                comps == views(self.components@),
                out@ == path_text((self.absolute, comps.subrange(0, i as int))),
            decreases self.components@.len() - i,
        {
            let ghost before = out@;
            proof {
                reveal_strlit("/");
            }
            if i > 0 {
                out.append("/");
            }
            out.append(self.components[i].as_str());
            proof {
                let upto = comps.subrange(0, i as int + 1);
                assert(upto.drop_last() =~= comps.subrange(0, i as int));
                assert(upto.last() == self.components@[i as int]@);
                if i == 0 {
                    assert(joined(upto) == upto[0]);
                } else {
                    assert(joined(upto) == joined(upto.drop_last()) + seq!['/'] + upto.last());
                }
                if self.absolute {
                    assert(out@ =~= seq!['/'] + joined(upto));
                } else {
                    assert(out@ =~= joined(upto));
                }
            }
            i = i + 1;
        }
        assert(comps.subrange(0, comps.len() as int) =~= comps);
        out
    }
}

/// Components joined by `/`.
pub open spec fn joined(comps: Seq<Seq<char>>) -> Seq<char>
    decreases comps.len(),
{
    if comps.len() == 0 {
        Seq::<char>::empty()
    } else if comps.len() == 1 {
        comps[0]
    } else {
        joined(comps.drop_last()) + seq!['/'] + comps.last()
    }
}

/// A path written as text.
pub open spec fn path_text(p: PathV) -> Seq<char> {
    if p.0 {
        seq!['/'] + joined(p.1)
    } else {
        joined(p.1)
    }
}

/// The index of the last `.` in `s`.
fn find_last_dot(s: &str) -> (r: Option<usize>)
    ensures
        r matches Some(i) ==> last_dot(s@) == Some(i as int) && i < s@.len(),
        r is None ==> last_dot(s@) is None,
{
    let n = s.unicode_len();
    let mut i: usize = n;
    assert(s@.subrange(0, n as int) =~= s@);
    while i > 0
        invariant
            i <= n == s@.len(),
            last_dot(s@) == last_dot(s@.subrange(0, i as int)),
        decreases i,
    {
        let ghost part = s@.subrange(0, i as int);
        assert(part.drop_last() =~= s@.subrange(0, i as int - 1));
        if s.get_char(i - 1) == '.' {
            return Some(i - 1);
        }
        i = i - 1;
    }
    assert(s@.subrange(0, 0) =~= Seq::<char>::empty());
    None
}

} // verus!
