//! A snapshot of the part of the file system that link decisions read.
//!
//! The caller observes the file system (which paths exist, of which kind,
//! and the text of manifest files) and hands the observations over as an
//! `FsView`. Every decision of the library is then a function of the view.
//! Lookups go by components, as `Path` compares paths; where a directory is
//! listed, its entries come in the order in which the view holds them.

use vstd::prelude::*;
use crate::paths::{
    comp_views, comps_prefix_eq, components, path_components, path_starts_with, same_path,
    join, same_path_exec, starts_with_exec, PathComp,
};
use crate::text::{chars_eq, from_chars};
use crate::paths::{extension_exec, extension_of};

verus! {

/// The kind of an existing file-system entry (links followed).
#[derive(Clone, Copy, Debug, PartialEq, Eq, Structural)]
pub enum EntryKind {
    File,
    Dir,
    Other,
}

/// What is known of the text of a file.
#[derive(Debug)]
pub enum FileText {
    /// The file was not read.
    Unread,
    /// The file was read; this is its text.
    Text(String),
    /// Reading failed with this message.
    Failed(String),
}

/// One observed entry.
#[derive(Debug)]
pub struct FsEntry {
    pub path: String,
    pub kind: EntryKind,
    pub text: FileText,
    /// What `std::fs::canonicalize` gave for the path, where it succeeded.
    pub canonical: Option<String>,
}

/// Observed entries; a path that no entry names does not exist.
#[derive(Debug)]
pub struct FsView {
    pub entries: Vec<FsEntry>,
}

/// The first index in `i..n` at which `pred` holds.
pub open spec fn first_from(n: int, i: int, pred: spec_fn(int) -> bool) -> Option<int>
    decreases n - i,
{
    if i >= n {
        None
    } else if pred(i) {
        Some(i)
    } else {
        first_from(n, i + 1, pred)
    }
}

/// `first_from` finds the first index at which `pred` holds.
pub proof fn lemma_first_from(n: int, i: int, pred: spec_fn(int) -> bool)
    requires
        i <= n,
    ensures
        first_from(n, i, pred) matches Some(k) ==> i <= k < n && pred(k) && forall|j: int|
            i <= j < k ==> !#[trigger] pred(j),
        first_from(n, i, pred) is None ==> forall|j: int| i <= j < n ==> !#[trigger] pred(j),
    decreases n - i,
{
    if i < n && !pred(i) {
        lemma_first_from(n, i + 1, pred);
    }
}

impl FsView {
    pub open spec fn len(&self) -> int {
        self.entries@.len() as int
    }

    pub open spec fn path_at(&self, i: int) -> Seq<char> {
        self.entries@[i].path@
    }

    /// Whether no two entries name the same path, as a file system has
    /// one entry per path.
    pub open spec fn distinct_paths(&self) -> bool {
        forall|i: int, j: int| 0 <= i < j < self.len() ==> !same_path(#[trigger] self.path_at(i), #[trigger] self.path_at(j))
    }

    /// Whether the directory that holds each entry is an entry too, as on a
    /// file system (a root, or a single relative component, is held by
    /// none that could be named).
    pub open spec fn parents_present(&self) -> bool {
        forall|i: int|
            0 <= i < self.len() && #[trigger] components(self.path_at(i)).len() > 1 ==> exists|j: int|
                0 <= j < self.len() && components(self.path_at(j)) == components(self.path_at(i)).drop_last()
    }

    pub open spec fn kind_at(&self, i: int) -> EntryKind {
        self.entries@[i].kind
    }

    /// The entry that `p` names: the first one with the same components.
    pub open spec fn lookup(&self, p: Seq<char>) -> Option<int> {
        first_from(self.len(), 0, self.names(p))
    }

    /// Which entries have the same components as `p`.
    pub open spec fn names(&self, p: Seq<char>) -> spec_fn(int) -> bool {
        |i: int| same_path(self.path_at(i), p)
    }

    /// `Path::exists`.
    pub open spec fn has_path(&self, p: Seq<char>) -> bool {
        self.lookup(p) is Some
    }

    /// `Path::is_file`.
    pub open spec fn is_file(&self, p: Seq<char>) -> bool {
        self.lookup(p) matches Some(i) && self.kind_at(i) == EntryKind::File
    }

    /// `Path::is_dir`.
    pub open spec fn is_dir(&self, p: Seq<char>) -> bool {
        self.lookup(p) matches Some(i) && self.kind_at(i) == EntryKind::Dir
    }

    /// What `std::fs::read_to_string(p)` gave: `Ok` text or `Err` message;
    /// `None` where the file was not read.
    pub open spec fn text_of(&self, p: Seq<char>) -> Option<Result<Seq<char>, Seq<char>>> {
        match self.lookup(p) {
            Some(i) => match self.entries@[i].text {
                FileText::Text(t) => Some(Ok(t@)),
                FileText::Failed(m) => Some(Err(m@)),
                FileText::Unread => None,
            },
            None => None,
        }
    }

    /// `p.canonicalize().unwrap_or(p)`: the canonical path where one was
    /// observed, else `p` itself.
    pub open spec fn canonical_of(&self, p: Seq<char>) -> Seq<char> {
        match self.lookup(p) {
            Some(i) => match self.entries@[i].canonical {
                Some(c) => c@,
                None => p,
            },
            None => p,
        }
    }

    /// Whether entry `i` is a child of directory `d`; its name is then the
    /// last component.
    pub open spec fn is_child(&self, i: int, d: Seq<char>) -> bool {
        let c = components(self.path_at(i));
        c.len() == components(d).len() + 1 && c.subrange(0, c.len() - 1) == components(d)
            && c.last() is Normal
    }

    /// The name of entry `i` (its last component, when it is a normal one).
    pub open spec fn name_at(&self, i: int) -> Seq<char> {
        components(self.path_at(i)).last()->Normal_0
    }

    /// Index of the entry that `p` names.
    pub fn lookup_exec(&self, p: &str) -> (r: Option<usize>)
        ensures
            r matches Some(i) ==> self.lookup(p@) == Some(i as int) && i < self.entries.len(),
            r is None ==> self.lookup(p@) is None,
    {
        let ghost pred = self.names(p@);
        let mut i: usize = 0;
        while i < self.entries.len()
            invariant
                i <= self.entries.len(),
                pred == self.names(p@),
                first_from(self.len(), 0, pred) == first_from(self.len(), i as int, pred),
            decreases self.entries.len() - i,
        {
            if same_path_exec(self.entries[i].path.as_str(), p) {
                assert(pred(i as int));
                return Some(i);
            }
            i = i + 1;
        }
        None
    }

    /// `Path::exists`.
    pub fn exists_exec(&self, p: &str) -> (r: bool)
        ensures
            r == self.has_path(p@),
    {
        self.lookup_exec(p).is_some()
    }

    /// `Path::is_file`.
    pub fn is_file_exec(&self, p: &str) -> (r: bool)
        ensures
            r == self.is_file(p@),
    {
        match self.lookup_exec(p) {
            Some(i) => self.entries[i].kind == EntryKind::File,
            None => false,
        }
    }

    /// `Path::is_dir`.
    pub fn is_dir_exec(&self, p: &str) -> (r: bool)
        ensures
            r == self.is_dir(p@),
    {
        match self.lookup_exec(p) {
            Some(i) => self.entries[i].kind == EntryKind::Dir,
            None => false,
        }
    }

    /// `p.canonicalize().unwrap_or(p)`.
    pub fn canonical_exec(&self, p: &str) -> (r: String)
        ensures
            r@ == self.canonical_of(p@),
    {
        match self.lookup_exec(p) {
            Some(i) => match &self.entries[i].canonical {
                Some(c) => c.clone(),
                None => p.to_owned(),
            },
            None => p.to_owned(),
        }
    }

    /// The text of the file at `p`, as far as it was read.
    pub fn text_exec(&self, p: &str) -> (r: Option<Result<String, String>>)
        ensures
            r matches Some(Ok(t)) ==> self.text_of(p@) == Some(Ok::<Seq<char>, Seq<char>>(t@)),
            r matches Some(Err(m)) ==> self.text_of(p@) == Some(Err::<Seq<char>, Seq<char>>(m@)),
            r is None ==> self.text_of(p@) is None,
    {
        match self.lookup_exec(p) {
            Some(i) => match &self.entries[i].text {
                FileText::Text(t) => Some(Ok(t.clone())),
                FileText::Failed(m) => Some(Err(m.clone())),
                FileText::Unread => None,
            },
            None => None,
        }
    }

    /// If entry `i` is a child of the directory with components `dc`, its name.
    pub(crate) fn child_name_exec(&self, i: usize, dc: &Vec<PathComp>, Ghost(d): Ghost<Seq<char>>) -> (r:
        Option<String>)
        requires
            i < self.len(),
            comp_views(dc@) == components(d),
        ensures
            r matches Some(n) ==> self.is_child(i as int, d) && n@ == self.name_at(i as int),
            r is None ==> !self.is_child(i as int, d),
    {
        let c = path_components(self.entries[i].path.as_str());
        if c.len() == 0 || c.len() - 1 != dc.len() {
            return None;
        }
        let same = comps_prefix_eq(&c, dc, dc.len());
        let ghost cv = comp_views(c@);
        assert(comp_views(dc@).subrange(0, dc.len() as int) =~= comp_views(dc@));
        assert(cv.subrange(0, cv.len() - 1) == cv.subrange(0, dc.len() as int));
        if !same {
            return None;
        }
        assert(cv.last() == c@[dc.len() as int]@);
        match &c[dc.len()] {
            PathComp::Normal(x) => Some(from_chars(x)),
            _ => None,
        }
    }
}

impl FsView {
    /// Whether entry `i` is a regular file at or below `dir`: one that a walk
    /// of `dir` meets.
    pub open spec fn file_below(&self, i: int, dir: Seq<char>) -> bool {
        self.kind_at(i) == EntryKind::File && path_starts_with(self.path_at(i), dir)
    }

    /// Whether entry `i` is a regular file at or below `dir`.
    pub fn file_below_exec(&self, i: usize, dir: &str) -> (r: bool)
        requires
            i < self.len(),
        ensures
            r == self.file_below(i as int, dir@),
    {
        self.entries[i].kind == EntryKind::File && starts_with_exec(self.entries[i].path.as_str(), dir)
    }
}

/// The views of a vector of strings.
pub open spec fn str_views(v: Seq<String>) -> Seq<Seq<char>> {
    v.map_values(|s: String| s@)
}

/// The candidates whose directory exists are all kept, in order.
pub proof fn lemma_keep_all(fs: FsView, ps: Seq<Seq<char>>)
    requires
        forall|i: int| 0 <= i < ps.len() ==> fs.parent_exists(#[trigger] ps[i]),
    ensures
        keep_with_parent(fs, ps) == ps,
    decreases ps.len(),
{
    if ps.len() > 0 {
        let t = ps.drop_first();
        assert forall|i: int| 0 <= i < t.len() implies fs.parent_exists(#[trigger] t[i]) by {
            assert(t[i] == ps[i + 1]);
        }
        lemma_keep_all(fs, t);
        assert(fs.parent_exists(ps[0]));
        assert(seq![ps[0]] + t =~= ps);
    }
}

/// No candidate is kept when none of their directories exists.
pub proof fn lemma_keep_none(fs: FsView, ps: Seq<Seq<char>>)
    requires
        forall|i: int| 0 <= i < ps.len() ==> !fs.parent_exists(#[trigger] ps[i]),
    ensures
        keep_with_parent(fs, ps) == Seq::<Seq<char>>::empty(),
    decreases ps.len(),
{
    if ps.len() > 0 {
        let t = ps.drop_first();
        assert forall|i: int| 0 <= i < t.len() implies !fs.parent_exists(#[trigger] t[i]) by {
            assert(t[i] == ps[i + 1]);
        }
        lemma_keep_none(fs, t);
        assert(!fs.parent_exists(ps[0]));
        assert(Seq::<Seq<char>>::empty() + keep_with_parent(fs, t) =~= Seq::<Seq<char>>::empty());
    }
}

/// In a view that holds the parent of each entry, a plain name below `b`
/// exists only if `b` does.
pub proof fn lemma_parent_present(fs: FsView, b: Seq<char>, n: Seq<char>)
    requires
        fs.parents_present(),
        components(b).len() > 0,
        crate::paths::plain_name(n),
        fs.has_path(join(b, n)),
    ensures
        fs.has_path(b),
{
    crate::paths::lemma_join_plain(b, n);
    lemma_first_from(fs.len(), 0, fs.names(join(b, n)));
    lemma_first_from(fs.len(), 0, fs.names(b));
    let i = fs.lookup(join(b, n))->Some_0;
    assert(same_path(fs.path_at(i), join(b, n)));
    let ci = components(fs.path_at(i));
    assert(ci.len() > 1);
    let j = choose|j: int| 0 <= j < fs.len() && components(fs.path_at(j)) == components(fs.path_at(i)).drop_last();
    assert(ci.drop_last() =~= components(b));
    assert((fs.names(b))(j));
}

/// The parent of a plain name joined below `b` exists exactly when `b`
/// does.
pub proof fn lemma_parent_of_join(fs: FsView, b: Seq<char>, n: Seq<char>)
    requires
        crate::paths::plain_name(n),
    ensures
        fs.parent_exists(join(b, n)) == fs.has_path(b),
{
    crate::paths::lemma_join_plain(b, n);
    let c = components(join(b, n));
    assert(c.drop_last() =~= components(b));
    lemma_first_from(fs.len(), 0, fs.names(b));
    if fs.has_path(b) {
        let i = fs.lookup(b)->Some_0;
        assert(same_path(fs.path_at(i), b));
    }
    if fs.parent_exists(join(b, n)) {
        let i = choose|i: int| 0 <= i < fs.len() && components(fs.path_at(i)) == c.drop_last();
        assert((fs.names(b))(i));
    }
}

impl FsView {
    /// Whether `Path::parent` of `p` exists: `p` has a last component other
    /// than the root, and some entry has the components before it.
    pub open spec fn parent_exists(&self, p: Seq<char>) -> bool {
        let c = components(p);
        &&& c.len() > 0
        &&& !(c.last() is Root)
        &&& exists|i: int| 0 <= i < self.len() && components(self.path_at(i)) == c.drop_last()
    }

    /// `p.parent().map(|q| q.exists()).unwrap_or(false)`.
    pub fn parent_exists_exec(&self, p: &str) -> (r: bool)
        ensures
            r == self.parent_exists(p@),
    {
        let cp = path_components(p);
        let n = cp.len();
        if n == 0 {
            return false;
        }
        assert(comp_views(cp@).last() == cp@[n - 1]@);
        let is_root = match &cp[n - 1] {
            PathComp::Root => true,
            _ => false,
        };
        if is_root {
            return false;
        }
        assert(!(components(p@).last() is Root));
        let ghost want = comp_views(cp@).drop_last();
        let mut i: usize = 0;
        while i < self.entries.len()
            invariant
                i <= self.entries.len(),
                n == cp.len() > 0,
                comp_views(cp@) == components(p@),
                !(components(p@).last() is Root),
                want == comp_views(cp@).drop_last(),
                forall|j: int| 0 <= j < i ==> components(self.path_at(j)) != want,
            decreases self.entries.len() - i,
        {
            let ce = path_components(self.entries[i].path.as_str());
            if ce.len() == n - 1 {
                if comps_prefix_eq(&ce, &cp, n - 1) {
                    assert(comp_views(ce@) =~= comp_views(ce@).subrange(0, n - 1));
                    assert(want =~= comp_views(cp@).subrange(0, n - 1));
                    assert(components(self.path_at(i as int)) == want);
                    assert(components(p@) == comp_views(cp@));
                    return true;
                } else {
                    assert(comp_views(ce@) =~= comp_views(ce@).subrange(0, n - 1));
                    assert(want =~= comp_views(cp@).subrange(0, n - 1));
                }
            }
            i = i + 1;
        }
        false
    }

    /// Which entries are children of `d` with an extension among `exts`.
    pub open spec fn child_with_ext(&self, d: Seq<char>, exts: Seq<Seq<char>>) -> spec_fn(int) -> bool {
        |i: int|
            self.is_child(i, d) && (extension_of(self.name_at(i)) matches Some(e) && exts.contains(
                e,
            ))
    }

    /// The first child of `d` (in the view's order) with an extension among
    /// `exts`, as `std::fs::read_dir` would meet it.
    pub open spec fn first_child_with_ext(&self, d: Seq<char>, exts: Seq<Seq<char>>) -> Option<int> {
        first_from(self.len(), 0, self.child_with_ext(d, exts))
    }

    /// The first child of `d` with an extension among `exts`, and its name.
    pub fn first_child_with_ext_exec(&self, d: &str, exts: &Vec<Vec<char>>) -> (r: Option<
        (usize, String),
    >)
        ensures
            r matches Some((i, name)) ==> self.first_child_with_ext(d@, crate::text::views(exts@))
                == Some(i as int) && name@ == self.name_at(i as int) && i < self.len(),
            r is None ==> self.first_child_with_ext(d@, crate::text::views(exts@)) is None,
    {
        let dc = path_components(d);
        let ghost pred = self.child_with_ext(d@, crate::text::views(exts@));
        let mut i: usize = 0;
        while i < self.entries.len()
            invariant
                i <= self.entries.len(),
                comp_views(dc@) == components(d@),
                pred == self.child_with_ext(d@, crate::text::views(exts@)),
                first_from(self.len(), 0, pred) == first_from(self.len(), i as int, pred),
            decreases self.entries.len() - i,
        {
            match self.child_name_exec(i, &dc, Ghost(d@)) {
                Some(name) => {
                    let nv = crate::text::to_chars(name.as_str());
                    match extension_exec(&nv) {
                        Some(e) => {
                            if contains_vec(exts, &e) {
                                assert(pred(i as int));
                                return Some((i, name));
                            }
                        },
                        None => {},
                    }
                },
                None => {},
            }
            i = i + 1;
        }
        None
    }
}

/// Whether `x` is one of the vectors in `xs`.
pub fn contains_vec(xs: &Vec<Vec<char>>, x: &Vec<char>) -> (r: bool)
    ensures
        r == crate::text::views(xs@).contains(x@),
{
    let mut i: usize = 0;
    while i < xs.len()
        invariant
            i <= xs.len(),
            forall|j: int| 0 <= j < i ==> xs@[j]@ != x@,
        decreases xs.len() - i,
    {
        if chars_eq(&xs[i], x) {
            assert(crate::text::views(xs@)[i as int] == x@);
            return true;
        }
        i = i + 1;
    }
    assert forall|j: int| 0 <= j < crate::text::views(xs@).len() implies crate::text::views(
        xs@,
    )[j] != x@ by {
        assert(crate::text::views(xs@)[j] == xs@[j]@);
    }
    false
}

/// The candidates whose parent exists, in order.
pub open spec fn keep_with_parent(fs: FsView, ps: Seq<Seq<char>>) -> Seq<Seq<char>>
    decreases ps.len(),
{
    if ps.len() == 0 {
        seq![]
    } else {
        (if fs.parent_exists(ps[0]) {
            seq![ps[0]]
        } else {
            seq![]
        }) + keep_with_parent(fs, ps.drop_first())
    }
}

/// Completion markers: the candidates whose parent directory exists, or
/// `fallback` alone when there is none.
pub open spec fn markers_with_fallback(fs: FsView, ps: Seq<Seq<char>>, fallback: Seq<char>) -> Seq<
    Seq<char>,
> {
    let kept = keep_with_parent(fs, ps);
    if kept.len() == 0 {
        seq![fallback]
    } else {
        kept
    }
}

/// `markers.retain(|p| parent exists); if empty { push(fallback) }`.
pub fn retain_with_parent(fs: &FsView, cands: Vec<String>, fallback: String) -> (r: Vec<String>)
    ensures
        str_views(r@) == markers_with_fallback(*fs, str_views(cands@), fallback@),
{
    let ghost all = str_views(cands@);
    let mut out: Vec<String> = Vec::new();
    let mut i: usize = 0;
    assert(all.skip(0) =~= all);
    while i < cands.len()
        invariant
            i <= cands.len(),
            all == str_views(cands@),
            keep_with_parent(*fs, all) == str_views(out@) + keep_with_parent(*fs, all.skip(i as int)),
        decreases cands.len() - i,
    {
        let ghost rest = all.skip(i as int);
        let ghost before = str_views(out@);
        assert(rest[0] == cands@[i as int]@);
        assert(rest.drop_first() =~= all.skip(i + 1));
        if fs.parent_exists_exec(cands[i].as_str()) {
            out.push(cands[i].clone());
            assert(str_views(out@) =~= before + seq![rest[0]]);
            assert(keep_with_parent(*fs, rest) == seq![rest[0]] + keep_with_parent(*fs, rest.drop_first()));
            assert(str_views(out@) + keep_with_parent(*fs, all.skip(i + 1)) =~= before + (seq![rest[0]] + keep_with_parent(*fs, rest.drop_first())));
        } else {
            assert(keep_with_parent(*fs, rest) =~= keep_with_parent(*fs, rest.drop_first()));
        }
        i = i + 1;
    }
    assert(all.skip(i as int) =~= Seq::<Seq<char>>::empty());
    assert(str_views(out@) + Seq::<Seq<char>>::empty() =~= str_views(out@));
    if out.len() == 0 {
        let mut v: Vec<String> = Vec::new();
        v.push(fallback);
        assert(str_views(v@) =~= seq![fallback@]);
        v
    } else {
        out
    }
}

/// What reading a path that does not exist fails with, as the operating
/// system words it (`ENOENT`).
pub const NOT_FOUND_MSG: &'static str = "No such file or directory (os error 2)";

/// What reading a directory as a file fails with (`EISDIR`).
pub const IS_DIR_MSG: &'static str = "Is a directory (os error 21)";

/// What reading a file whose text the view does not hold gives.
pub const UNREAD_MSG: &'static str = "file was not read";

/// What reading the file at `p` gives: its text, or the error message. A
/// path that no entry names does not exist, and a directory cannot be read
/// as a file; a file whose text was not observed reads as an error too.
pub open spec fn read_text(fs: FsView, p: Seq<char>) -> Result<Seq<char>, Seq<char>> {
    match fs.text_of(p) {
        Some(r) => r,
        None => if !fs.has_path(p) {
            Err(NOT_FOUND_MSG@)
        } else if fs.is_dir(p) {
            Err(IS_DIR_MSG@)
        } else {
            Err(UNREAD_MSG@)
        },
    }
}

/// Reads the file at `p` from the view.
pub fn read_text_exec(fs: &FsView, p: &str) -> (r: Result<String, String>)
    ensures
        r matches Ok(t) ==> read_text(*fs, p@) == Ok::<Seq<char>, Seq<char>>(t@),
        r matches Err(m) ==> read_text(*fs, p@) == Err::<Seq<char>, Seq<char>>(m@),
{
    match fs.text_exec(p) {
        Some(r) => r,
        None => if !fs.exists_exec(p) {
            Err(NOT_FOUND_MSG.to_owned())
        } else if fs.is_dir_exec(p) {
            Err(IS_DIR_MSG.to_owned())
        } else {
            Err(UNREAD_MSG.to_owned())
        },
    }
}

} // verus!
