//! Which files of a package are synced: paths filtered by their components.

use vstd::prelude::*;
use crate::fs::{contains_vec, str_views, FsView};
use crate::model::LinkdResult;
use crate::order::{lemma_comps_order, lemma_path_le, path_le, path_order, path_order_exec};
use crate::paths::{
    comp_views, components, lemma_relative_rejoins, path_components, relative_exec, relative_to, same_path, Comp,
    PathComp,
};
use crate::text::{chars_eq, lit, views};

verus! {

/// Whether some normal component of `p` is one of `names`.
pub open spec fn has_component_in(p: Seq<char>, names: Seq<Seq<char>>) -> bool {
    exists|j: int|
        0 <= j < components(p).len() && (#[trigger] components(p)[j] matches Comp::Normal(n)
            && names.contains(n))
}

/// Whether some normal component of `p` is one of `names`.
pub fn has_component_in_exec(p: &str, names: &Vec<Vec<char>>) -> (r: bool)
    ensures
        r == has_component_in(p@, views(names@)),
{
    let c = path_components(p);
    let mut i: usize = 0;
    while i < c.len()
        invariant
            i <= c.len(),
            comp_views(c@) == components(p@),
            forall|j: int|
                0 <= j < i ==> !(#[trigger] components(p@)[j] matches Comp::Normal(n) && views(
                    names@,
                ).contains(n)),
        decreases c.len() - i,
    {
        assert(components(p@)[i as int] == c@[i as int]@);
        match &c[i] {
            PathComp::Normal(x) => {
                if contains_vec(names, x) {
                    return true;
                }
            },
            _ => {},
        }
        i = i + 1;
    }
    false
}

/// Directories never synced from a source (generic and npm packages).
pub open spec fn custom_excluded() -> Seq<Seq<char>> {
    seq![".git"@, "node_modules"@, "vendor"@, "target"@, ".linkd-shadow"@]
}

/// Whether a source path lies in a directory that is never synced:
/// `.git`, `node_modules`, `vendor`, `target` or `.linkd-shadow`.
pub fn should_exclude(path: &str) -> (r: bool)
    ensures
        r == has_component_in(path@, custom_excluded()),
{
    let mut names: Vec<Vec<char>> = Vec::new();
    names.push(lit(".git"));
    names.push(lit("node_modules"));
    names.push(lit("vendor"));
    names.push(lit("target"));
    names.push(lit(".linkd-shadow"));
    assert(views(names@) =~= custom_excluded());
    has_component_in_exec(path, &names)
}

/// Directories never synced from a Composer package.
pub open spec fn composer_excluded() -> Seq<Seq<char>> {
    seq![".git"@, "node_modules"@, "vendor"@, "target"@]
}

/// Whether a Composer source path lies in `.git`, `node_modules`, `vendor`
/// or `target`.
pub fn composer_should_exclude(rel: &str) -> (r: bool)
    ensures
        r == has_component_in(rel@, composer_excluded()),
{
    let mut names: Vec<Vec<char>> = Vec::new();
    names.push(lit(".git"));
    names.push(lit("node_modules"));
    names.push(lit("vendor"));
    names.push(lit("target"));
    assert(views(names@) =~= composer_excluded());
    has_component_in_exec(rel, &names)
}

/// Directories never synced from an Elixir package.
pub open spec fn elixir_excluded() -> Seq<Seq<char>> {
    seq![".git"@, "_build"@, "deps"@, ".elixir_ls"@, ".linkd-shadow"@]
}

/// Whether an Elixir source path lies in `.git`, `_build`, `deps`,
/// `.elixir_ls` or `.linkd-shadow`.
pub fn elixir_should_exclude(path: &str) -> (r: bool)
    ensures
        r == has_component_in(path@, elixir_excluded()),
{
    let mut names: Vec<Vec<char>> = Vec::new();
    names.push(lit(".git"));
    names.push(lit("_build"));
    names.push(lit("deps"));
    names.push(lit(".elixir_ls"));
    names.push(lit(".linkd-shadow"));
    assert(views(names@) =~= elixir_excluded());
    has_component_in_exec(path, &names)
}

/// Caches, environments and build output that a Python package never syncs.
pub open spec fn python_ignored_names() -> Seq<Seq<char>> {
    seq![
        "__pycache__"@,
        ".pytest_cache"@,
        ".mypy_cache"@,
        ".ruff_cache"@,
        ".venv"@,
        "venv"@,
        "env"@,
        ".git"@,
        "build"@,
        "dist"@,
    ]
}

/// Whether `s` ends with `suffix`.
pub open spec fn ends_with(s: Seq<char>, suffix: Seq<char>) -> bool {
    suffix.len() <= s.len() && s.subrange(s.len() - suffix.len(), s.len() as int) == suffix
}

/// A name that Python packaging never syncs.
pub open spec fn python_ignored_name(n: Seq<char>) -> bool {
    python_ignored_names().contains(n) || ends_with(n, ".egg-info"@) || ends_with(n, ".pyc"@)
        || ends_with(n, ".pyo"@)
}

/// Whether some normal component of `rel` is a name Python never syncs.
pub open spec fn python_ignored(rel: Seq<char>) -> bool {
    exists|j: int|
        0 <= j < components(rel).len() && (#[trigger] components(rel)[j] matches Comp::Normal(n)
            && python_ignored_name(n))
}

fn ends_with_exec(s: &Vec<char>, suffix: &Vec<char>) -> (r: bool)
    ensures
        r == ends_with(s@, suffix@),
{
    if suffix.len() > s.len() {
        return false;
    }
    let tail = crate::text::copy_range(s, s.len() - suffix.len(), s.len());
    chars_eq(&tail, suffix)
}

/// Whether a relative path inside a Python package is never synced: a
/// cache, a virtual environment, `.git`, `build`, `dist`, egg metadata or
/// compiled bytecode.
pub fn is_ignored(rel: &str) -> (r: bool)
    ensures
        r == python_ignored(rel@),
{
    let mut names: Vec<Vec<char>> = Vec::new();
    names.push(lit("__pycache__"));
    names.push(lit(".pytest_cache"));
    names.push(lit(".mypy_cache"));
    names.push(lit(".ruff_cache"));
    names.push(lit(".venv"));
    names.push(lit("venv"));
    names.push(lit("env"));
    names.push(lit(".git"));
    names.push(lit("build"));
    names.push(lit("dist"));
    assert(views(names@) =~= python_ignored_names());
    let egg = lit(".egg-info");
    let pyc = lit(".pyc");
    let pyo = lit(".pyo");
    let c = path_components(rel);
    let mut i: usize = 0;
    while i < c.len()
        invariant
            i <= c.len(),
            comp_views(c@) == components(rel@),
            views(names@) == python_ignored_names(),
            egg@ == ".egg-info"@,
            pyc@ == ".pyc"@,
            pyo@ == ".pyo"@,
            forall|j: int|
                0 <= j < i ==> !(#[trigger] components(rel@)[j] matches Comp::Normal(n)
                    && python_ignored_name(n)),
        decreases c.len() - i,
    {
        assert(components(rel@)[i as int] == c@[i as int]@);
        match &c[i] {
            PathComp::Normal(x) => {
                if contains_vec(&names, x) || ends_with_exec(x, &egg) || ends_with_exec(x, &pyc)
                    || ends_with_exec(x, &pyo) {
                    return true;
                }
            },
            _ => {},
        }
        i = i + 1;
    }
    false
}

/// Which files of a walked source a package syncs.
#[derive(Clone, Copy, Debug, PartialEq, Eq, Structural)]
pub enum ListRule {
    /// Generic packages: all but `.git`, `node_modules`, `vendor`, `target`
    /// and `.linkd-shadow`.
    Custom,
    /// Composer packages: all but `.git`, `node_modules`, `vendor` and
    /// `target` below the source.
    Composer,
    /// Python packages: all but caches, environments and build output below
    /// the source.
    Python,
    /// Elixir packages: all but `.git`, `_build`, `deps`, `.elixir_ls` and
    /// `.linkd-shadow`.
    Elixir,
}

/// Whether `rule` leaves out the file at `path`, `rel` below the source.
pub open spec fn left_out(rule: ListRule, path: Seq<char>, rel: Seq<char>) -> bool {
    match rule {
        ListRule::Custom => has_component_in(path, custom_excluded()),
        ListRule::Composer => has_component_in(rel, composer_excluded()),
        ListRule::Python => python_ignored(rel),
        ListRule::Elixir => has_component_in(path, elixir_excluded()),
    }
}

fn left_out_exec(rule: ListRule, path: &str, rel: &str) -> (r: bool)
    ensures
        r == left_out(rule, path@, rel@),
{
    match rule {
        ListRule::Custom => should_exclude(path),
        ListRule::Composer => composer_should_exclude(rel),
        ListRule::Python => is_ignored(rel),
        ListRule::Elixir => elixir_should_exclude(path),
    }
}

/// The files that a walk of `source` meets among the first `n` entries of
/// the view and that `rule` keeps, relative to `source`, in walk order.
pub open spec fn walked(fs: FsView, source: Seq<char>, rule: ListRule, n: int) -> Seq<Seq<char>>
    decreases n,
{
    if n <= 0 {
        seq![]
    } else {
        let rest = walked(fs, source, rule, n - 1);
        let p = fs.path_at(n - 1);
        if fs.file_below(n - 1, source) && !left_out(rule, p, relative_to(p, source)) {
            rest.push(relative_to(p, source))
        } else {
            rest
        }
    }
}

/// Whether paths are in the order of `Path`.
pub open spec fn sorted_paths(s: Seq<Seq<char>>) -> bool {
    forall|i: int, j: int| 0 <= i < j < s.len() ==> path_le(#[trigger] s[i], #[trigger] s[j])
}

/// Whether paths are in the strict order of `Path`: sorted, and no path
/// named twice.
pub open spec fn strictly_sorted_paths(s: Seq<Seq<char>>) -> bool {
    forall|i: int, j: int| 0 <= i < j < s.len() ==> path_order(#[trigger] s[i], #[trigger] s[j]) < 0
}

/// Puts `x` into the sorted `out`, after every path not above it.
fn insert_sorted(out: &mut Vec<String>, x: String)
    requires
        sorted_paths(str_views(old(out)@)),
    ensures
        sorted_paths(str_views(final(out)@)),
        str_views(final(out)@).to_multiset() == str_views(old(out)@).to_multiset().insert(x@),
        forall|j: int|
            0 <= j < str_views(final(out)@).len() ==> #[trigger] str_views(final(out)@)[j] == x@ || str_views(
                old(out)@,
            ).contains(str_views(final(out)@)[j]),
        strictly_sorted_paths(str_views(old(out)@)) && (forall|j: int|
            0 <= j < str_views(old(out)@).len() ==> path_order(#[trigger] str_views(old(out)@)[j], x@) != 0)
            ==> strictly_sorted_paths(str_views(final(out)@)),
{
    let ghost before = str_views(out@);
    let mut k: usize = 0;
    while k < out.len()
        invariant
            k <= out.len(),
            str_views(out@) == before,
            sorted_paths(before),
            forall|j: int| 0 <= j < k ==> path_le(#[trigger] before[j], x@),
        ensures
            k <= out.len(),
            str_views(out@) == before,
            forall|j: int| 0 <= j < k ==> path_le(#[trigger] before[j], x@),
            k < out.len() ==> !path_le(before[k as int], x@),
        decreases out.len() - k,
    {
        if path_order_exec(out[k].as_str(), x.as_str()) > 0 {
            break;
        }
        k = k + 1;
    }
    proof {
        assert forall|j: int| k <= j < before.len() implies path_le(x@, #[trigger] before[j]) by {
            lemma_path_le(before[k as int], x@, before[j]);
            lemma_path_le(x@, before[k as int], before[j]);
            lemma_path_le(before[k as int], before[k as int], before[j]);
        }
    }
    let ghost xv = x@;
    out.insert(k, x);
    proof {
        assert(str_views(out@) =~= before.insert(k as int, xv));
        broadcast use vstd::seq_lib::group_to_multiset_ensures;
        let after = str_views(out@);
        assert forall|j: int| 0 <= j < after.len() implies #[trigger] after[j] == xv || before.contains(after[j]) by {
            if j < k {
                assert(after[j] == before[j]);
            } else if j > k {
                assert(after[j] == before[j - 1]);
            }
        }
        if strictly_sorted_paths(before) && (forall|j: int| 0 <= j < before.len() ==> path_order(#[trigger] before[j], xv) != 0) {
            assert forall|i: int, j: int| 0 <= i < j < after.len() implies path_order(#[trigger] after[i], #[trigger] after[j]) < 0 by {
                if j < k {
                    assert(after[i] == before[i] && after[j] == before[j]);
                } else if j == k {
                    assert(after[i] == before[i]);
                    lemma_path_le(before[i], xv, xv);
                } else if i < k {
                    assert(after[i] == before[i] && after[j] == before[j - 1]);
                    lemma_path_le(before[i], xv, before[j - 1]);
                    lemma_path_le(xv, before[j - 1], xv);
                    lemma_comps_order(components(before[i]), components(xv), components(before[j - 1]));
                } else if i == k {
                    assert(after[j] == before[j - 1]);
                    lemma_path_le(xv, before[j - 1], xv);
                } else {
                    assert(after[i] == before[i - 1]);
                    assert(after[j] == before[j - 1]);
                }
            }
        }
        assert forall|i: int, j: int| 0 <= i < j < after.len() implies path_le(
            #[trigger] after[i],
            #[trigger] after[j],
        ) by {
            if j < k {
            } else if j == k {
            } else if i < k {
                lemma_path_le(after[i], xv, after[j]);
                assert(after[j] == before[j - 1]);
                assert(path_le(before[i], xv));
            } else if i == k {
                assert(after[j] == before[j - 1]);
            } else {
                assert(after[i] == before[i - 1]);
                assert(after[j] == before[j - 1]);
            }
        }
    }
}

/// The files of `source` that `rule` keeps, relative to `source` and
/// sorted as paths: the walk of `source` is the view's files below it. In a
/// view with one entry per path, no file is named twice.
pub fn list_files_with(fs: &FsView, source: &str, rule: ListRule) -> (r: Vec<String>)
    ensures
        sorted_paths(str_views(r@)),
        str_views(r@).to_multiset() == walked(*fs, source@, rule, fs.len()).to_multiset(),
        fs.distinct_paths() && source@.len() > 0 ==> strictly_sorted_paths(str_views(r@)),
{
    let mut out: Vec<String> = Vec::new();
    let mut i: usize = 0;
    proof {
        broadcast use vstd::seq_lib::group_to_multiset_ensures;
        assert(str_views(out@) =~= Seq::<Seq<char>>::empty());
        assert(walked(*fs, source@, rule, 0) =~= Seq::<Seq<char>>::empty());
    }
    while i < fs.entries.len()
        invariant
            i <= fs.entries.len(),
            sorted_paths(str_views(out@)),
            str_views(out@).to_multiset() == walked(*fs, source@, rule, i as int).to_multiset(),
            fs.distinct_paths() && source@.len() > 0 ==> strictly_sorted_paths(str_views(out@)),
            forall|j: int|
                0 <= j < str_views(out@).len() ==> exists|m: int|
                    0 <= m < i && fs.file_below(m, source@) && #[trigger] str_views(out@)[j] == relative_to(
                        fs.path_at(m),
                        source@,
                    ),
        decreases fs.entries.len() - i,
    {
        let p = fs.entries[i].path.as_str();
        if fs.file_below_exec(i, source) {
            let rel = relative_exec(p, source);
            if !left_out_exec(rule, p, rel.as_str()) {
                let ghost before = str_views(out@);
                proof {
                    if fs.distinct_paths() && source@.len() > 0 {
                        assert forall|j: int| 0 <= j < before.len() implies path_order(#[trigger] before[j], rel@) != 0 by {
                            let m = choose|m: int|
                                0 <= m < i && fs.file_below(m, source@) && before[j] == relative_to(fs.path_at(m), source@);
                            lemma_relatives_apart(*fs, m, i as int, source@);
                            lemma_path_le(before[j], rel@, rel@);
                        }
                    }
                }
                insert_sorted(&mut out, rel);
                proof {
                    let after = str_views(out@);
                    assert forall|j: int| 0 <= j < after.len() implies exists|m: int|
                        0 <= m < i + 1 && fs.file_below(m, source@) && #[trigger] after[j] == relative_to(
                            fs.path_at(m),
                            source@,
                        ) by {
                        if after[j] == rel@ {
                            assert(fs.file_below(i as int, source@));
                        } else {
                            let q = choose|q: int| 0 <= q < before.len() && before[q] == after[j];
                            assert(before[q] == after[j]);
                        }
                    }
                }
                proof {
                    broadcast use vstd::seq_lib::group_to_multiset_ensures;
                }
            }
        }
        i = i + 1;
    }
    out
}

/// Two distinct files below `source` have relative paths with different
/// components.
proof fn lemma_relatives_apart(fs: FsView, m: int, i: int, source: Seq<char>)
    requires
        fs.distinct_paths(),
        source.len() > 0,
        0 <= m < i < fs.len(),
        fs.file_below(m, source),
        fs.file_below(i, source),
    ensures
        components(relative_to(fs.path_at(m), source)) != components(relative_to(fs.path_at(i), source)),
{
    let pm = fs.path_at(m);
    let pi = fs.path_at(i);
    lemma_relative_rejoins(pm, source);
    lemma_relative_rejoins(pi, source);
    let k = components(source).len() as int;
    let cm = components(pm);
    let ci = components(pi);
    assert(!same_path(pm, pi));
    if cm.skip(k) == ci.skip(k) {
        assert(cm =~= cm.subrange(0, k) + cm.skip(k));
        assert(ci =~= ci.subrange(0, k) + ci.skip(k));
    }
}

/// The files of a generic package (see `ListRule::Custom`).
pub fn list_files_walkdir(fs: &FsView, source: &str) -> (r: LinkdResult<Vec<String>>)
    ensures
        r matches Ok(v) ==> (fs.distinct_paths() && source@.len() > 0 ==> strictly_sorted_paths(str_views(v@))),
        r matches Ok(v) && sorted_paths(str_views(v@)) && str_views(v@).to_multiset() == walked(
            *fs,
            source@,
            ListRule::Custom,
            fs.len(),
        ).to_multiset(),
{
    Ok(list_files_with(fs, source, ListRule::Custom))
}

/// What a walk lists: each file below `source` that `rule` keeps, by its
/// path relative to `source`, and nothing else.
proof fn lemma_walked_members(fs: FsView, source: Seq<char>, rule: ListRule, n: int)
    requires
        0 <= n <= fs.len(),
    ensures
        forall|k: int|
            #![trigger walked(fs, source, rule, n)[k]]
            0 <= k < walked(fs, source, rule, n).len() ==> exists|m: int|
                #![trigger fs.path_at(m)]
                0 <= m < n && kept_file(fs, source, rule, m) && walked(fs, source, rule, n)[k] == relative_to(
                    fs.path_at(m),
                    source,
                ),
        forall|m: int|
            0 <= m < n && kept_file(fs, source, rule, m) ==> walked(fs, source, rule, n).contains(
                #[trigger] relative_to(fs.path_at(m), source),
            ),
    decreases n,
{
    if n == 0 {
        assert(walked(fs, source, rule, n).len() == 0);
    } else {
        lemma_walked_members(fs, source, rule, n - 1);
        let rest = walked(fs, source, rule, n - 1);
        let w = walked(fs, source, rule, n);
        let last = relative_to(fs.path_at(n - 1), source);
        if kept_file(fs, source, rule, n - 1) {
            assert(w == rest.push(last));
        } else {
            assert(w == rest);
        }
        assert forall|k: int|
            #![trigger walked(fs, source, rule, n)[k]]
            0 <= k < walked(fs, source, rule, n).len() implies exists|m: int|
                #![trigger fs.path_at(m)]
                0 <= m < n && kept_file(fs, source, rule, m) && walked(fs, source, rule, n)[k] == relative_to(
                    fs.path_at(m),
                    source,
                ) by {
            if k < rest.len() {
                assert(w[k] == rest[k]);
                let m = choose|m: int|
                    #![trigger fs.path_at(m)]
                    0 <= m < n - 1 && kept_file(fs, source, rule, m) && rest[k] == relative_to(fs.path_at(m), source);
                assert(fs.path_at(m) == fs.path_at(m));
            } else {
                assert(w[k] == last);
                assert(fs.path_at(n - 1) == fs.path_at(n - 1));
            }
        }
        assert forall|m: int| 0 <= m < n && kept_file(fs, source, rule, m) implies w.contains(
            #[trigger] relative_to(fs.path_at(m), source),
        ) by {
            if m < n - 1 {
                let k = choose|k: int| 0 <= k < rest.len() && rest[k] == relative_to(fs.path_at(m), source);
                assert(w[k] == rest[k]);
            } else {
                assert(w[rest.len() as int] == last);
            }
        }
    }
}

/// Whether entry `m` is a file below `source` that `rule` keeps.
pub open spec fn kept_file(fs: FsView, source: Seq<char>, rule: ListRule, m: int) -> bool {
    fs.file_below(m, source) && !left_out(rule, fs.path_at(m), relative_to(fs.path_at(m), source))
}

/// A listing of a rule that judges files by their relative path (`excl`)
/// holds no such file, and holds every other file below the source.
proof fn lemma_listing_by_rel(
    fs: FsView,
    source: Seq<char>,
    rule: ListRule,
    excl: spec_fn(Seq<char>) -> bool,
    listed: Seq<Seq<char>>,
)
    requires
        forall|p: Seq<char>, r: Seq<char>| left_out(rule, p, r) == excl(r),
        listed.to_multiset() == walked(fs, source, rule, fs.len()).to_multiset(),
    ensures
        forall|k: int| 0 <= k < listed.len() ==> !excl(#[trigger] listed[k]),
        forall|m: int|
            0 <= m < fs.len() && fs.file_below(m, source) && !excl(relative_to(fs.path_at(m), source))
                ==> listed.contains(#[trigger] relative_to(fs.path_at(m), source)),
{
    broadcast use vstd::seq_lib::group_to_multiset_ensures;
    let w = walked(fs, source, rule, fs.len());
    lemma_walked_members(fs, source, rule, fs.len());
    assert forall|k: int| 0 <= k < listed.len() implies !excl(#[trigger] listed[k]) by {
        assert(listed.to_multiset().count(listed[k]) > 0);
        assert(w.to_multiset().count(listed[k]) > 0);
        let q = choose|q: int| 0 <= q < w.len() && w[q] == listed[k];
        assert(w[q] == w[q]);
        let m = choose|m: int|
            #![trigger fs.path_at(m)]
            0 <= m < fs.len() && kept_file(fs, source, rule, m) && w[q] == relative_to(fs.path_at(m), source);
        assert(!excl(relative_to(fs.path_at(m), source)));
    }
    assert forall|m: int|
        0 <= m < fs.len() && fs.file_below(m, source) && !excl(relative_to(fs.path_at(m), source))
            implies listed.contains(#[trigger] relative_to(fs.path_at(m), source)) by {
        let x = relative_to(fs.path_at(m), source);
        assert(!left_out(rule, fs.path_at(m), x));
        assert(w.contains(x));
        assert(w.to_multiset().count(x) > 0);
        assert(listed.to_multiset().count(x) > 0);
    }
}

/// A listing of a rule that judges files by the components of their whole
/// path (`names`) lists no file with such a component below the source, and
/// lists every file whose path has none.
proof fn lemma_listing_by_path(
    fs: FsView,
    source: Seq<char>,
    rule: ListRule,
    names: Seq<Seq<char>>,
    listed: Seq<Seq<char>>,
)
    requires
        source.len() > 0,
        forall|p: Seq<char>, r: Seq<char>| left_out(rule, p, r) == has_component_in(p, names),
        listed.to_multiset() == walked(fs, source, rule, fs.len()).to_multiset(),
    ensures
        forall|k: int| 0 <= k < listed.len() ==> !has_component_in(#[trigger] listed[k], names),
        forall|m: int|
            0 <= m < fs.len() && fs.file_below(m, source) && !has_component_in(fs.path_at(m), names)
                ==> listed.contains(#[trigger] relative_to(fs.path_at(m), source)),
{
    broadcast use vstd::seq_lib::group_to_multiset_ensures;
    let w = walked(fs, source, rule, fs.len());
    lemma_walked_members(fs, source, rule, fs.len());
    assert forall|k: int| 0 <= k < listed.len() implies !has_component_in(#[trigger] listed[k], names) by {
        assert(listed.to_multiset().count(listed[k]) > 0);
        assert(w.to_multiset().count(listed[k]) > 0);
        let q = choose|q: int| 0 <= q < w.len() && w[q] == listed[k];
        assert(w[q] == w[q]);
        let m = choose|m: int|
            #![trigger fs.path_at(m)]
            0 <= m < fs.len() && kept_file(fs, source, rule, m) && w[q] == relative_to(fs.path_at(m), source);
        let p = fs.path_at(m);
        let x = relative_to(p, source);
        lemma_relative_rejoins(p, source);
        let off = components(source).len() as int;
        assert(!has_component_in(p, names));
        if has_component_in(x, names) {
            let j = choose|j: int|
                0 <= j < components(x).len() && (#[trigger] components(x)[j] matches Comp::Normal(n)
                    && names.contains(n));
            assert(components(x)[j] == components(p)[j + off]);
            assert(components(p)[j + off] matches Comp::Normal(n) && names.contains(n));
        }
    }
    assert forall|m: int|
        0 <= m < fs.len() && fs.file_below(m, source) && !has_component_in(fs.path_at(m), names)
            implies listed.contains(#[trigger] relative_to(fs.path_at(m), source)) by {
        let x = relative_to(fs.path_at(m), source);
        assert(!left_out(rule, fs.path_at(m), x));
        assert(w.contains(x));
        assert(w.to_multiset().count(x) > 0);
        assert(listed.to_multiset().count(x) > 0);
    }
}

/// An Elixir package syncs no file in `.git`, `_build`, `deps`, `.elixir_ls`
/// or `.linkd-shadow`: no listed path has such a component, and every file
/// below the source whose path has none is listed (`listed` being what
/// `list_files_with` gives, as a multiset).
pub proof fn lemma_elixir_listing(fs: FsView, source: Seq<char>, listed: Seq<Seq<char>>)
    requires
        source.len() > 0,
        listed.to_multiset() == walked(fs, source, ListRule::Elixir, fs.len()).to_multiset(),
    ensures
        forall|k: int|
            0 <= k < listed.len() ==> !has_component_in(
                #[trigger] listed[k],
                seq![".git"@, "_build"@, "deps"@, ".elixir_ls"@, ".linkd-shadow"@],
            ),
        forall|m: int|
            0 <= m < fs.len() && fs.file_below(m, source) && !has_component_in(
                fs.path_at(m),
                seq![".git"@, "_build"@, "deps"@, ".elixir_ls"@, ".linkd-shadow"@],
            ) ==> listed.contains(#[trigger] relative_to(fs.path_at(m), source)),
{
    let names = seq![".git"@, "_build"@, "deps"@, ".elixir_ls"@, ".linkd-shadow"@];
    assert(elixir_excluded() =~= names);
    lemma_listing_by_path(fs, source, ListRule::Elixir, names, listed);
}

/// A generic package syncs no file in `.git`, `node_modules`, `vendor`,
/// `target` or `.linkd-shadow`, and every other file below its source.
pub proof fn lemma_custom_listing(fs: FsView, source: Seq<char>, listed: Seq<Seq<char>>)
    requires
        source.len() > 0,
        listed.to_multiset() == walked(fs, source, ListRule::Custom, fs.len()).to_multiset(),
    ensures
        forall|k: int|
            0 <= k < listed.len() ==> !has_component_in(
                #[trigger] listed[k],
                seq![".git"@, "node_modules"@, "vendor"@, "target"@, ".linkd-shadow"@],
            ),
        forall|m: int|
            0 <= m < fs.len() && fs.file_below(m, source) && !has_component_in(
                fs.path_at(m),
                seq![".git"@, "node_modules"@, "vendor"@, "target"@, ".linkd-shadow"@],
            ) ==> listed.contains(#[trigger] relative_to(fs.path_at(m), source)),
{
    let names = seq![".git"@, "node_modules"@, "vendor"@, "target"@, ".linkd-shadow"@];
    assert(custom_excluded() =~= names);
    lemma_listing_by_path(fs, source, ListRule::Custom, names, listed);
}

/// A Composer package syncs no file below the source in `.git`,
/// `node_modules`, `vendor` or `target`, and every other file below it.
pub proof fn lemma_composer_listing(fs: FsView, source: Seq<char>, listed: Seq<Seq<char>>)
    requires
        listed.to_multiset() == walked(fs, source, ListRule::Composer, fs.len()).to_multiset(),
    ensures
        forall|k: int|
            0 <= k < listed.len() ==> !has_component_in(
                #[trigger] listed[k],
                seq![".git"@, "node_modules"@, "vendor"@, "target"@],
            ),
        forall|m: int|
            0 <= m < fs.len() && fs.file_below(m, source) && !has_component_in(
                relative_to(fs.path_at(m), source),
                seq![".git"@, "node_modules"@, "vendor"@, "target"@],
            ) ==> listed.contains(#[trigger] relative_to(fs.path_at(m), source)),
{
    let names = seq![".git"@, "node_modules"@, "vendor"@, "target"@];
    assert(composer_excluded() =~= names);
    let excl = |r: Seq<char>| has_component_in(r, names);
    lemma_listing_by_rel(fs, source, ListRule::Composer, excl, listed);
}

/// Whether some component of `rel` is one that Python packaging never
/// syncs: `__pycache__`, `.pytest_cache`, `.mypy_cache`, `.ruff_cache`,
/// `.venv`, `venv`, `env`, `.git`, `build`, `dist`, or a name ending in
/// `.egg-info`, `.pyc` or `.pyo`.
pub open spec fn python_skipped(rel: Seq<char>) -> bool {
    exists|j: int|
        0 <= j < components(rel).len() && (#[trigger] components(rel)[j] matches Comp::Normal(n) && (
        n == "__pycache__"@ || n == ".pytest_cache"@ || n == ".mypy_cache"@ || n == ".ruff_cache"@ || n
            == ".venv"@ || n == "venv"@ || n == "env"@ || n == ".git"@ || n == "build"@ || n == "dist"@
            || ends_with(n, ".egg-info"@) || ends_with(n, ".pyc"@) || ends_with(n, ".pyo"@)))
}

/// A Python package syncs no file in a cache, an environment, `.git`,
/// `build` or `dist`, nor egg metadata or compiled bytecode, and every other
/// file below its source.
pub proof fn lemma_python_listing(fs: FsView, source: Seq<char>, listed: Seq<Seq<char>>)
    requires
        listed.to_multiset() == walked(fs, source, ListRule::Python, fs.len()).to_multiset(),
    ensures
        forall|k: int| 0 <= k < listed.len() ==> !python_skipped(#[trigger] listed[k]),
        forall|m: int|
            0 <= m < fs.len() && fs.file_below(m, source) && !python_skipped(relative_to(fs.path_at(m), source))
                ==> listed.contains(#[trigger] relative_to(fs.path_at(m), source)),
{
    assert forall|r: Seq<char>| python_ignored(r) == python_skipped(r) by {
        if python_ignored(r) {
            let j = choose|j: int|
                0 <= j < components(r).len() && (#[trigger] components(r)[j] matches Comp::Normal(n)
                    && python_ignored_name(n));
            let n = components(r)[j]->Normal_0;
            assert(python_ignored_name(n));
            if python_ignored_names().contains(n) {
                let i = choose|i: int| 0 <= i < python_ignored_names().len() && python_ignored_names()[i] == n;
                assert(0 <= i < 10);
            }
        }
        if python_skipped(r) {
            let j = choose|j: int|
                0 <= j < components(r).len() && (#[trigger] components(r)[j] matches Comp::Normal(n) && (
                n == "__pycache__"@ || n == ".pytest_cache"@ || n == ".mypy_cache"@ || n == ".ruff_cache"@
                    || n == ".venv"@ || n == "venv"@ || n == "env"@ || n == ".git"@ || n == "build"@ || n
                    == "dist"@ || ends_with(n, ".egg-info"@) || ends_with(n, ".pyc"@) || ends_with(n, ".pyo"@)));
            let n = components(r)[j]->Normal_0;
            let ns = python_ignored_names();
            if n == "__pycache__"@ { assert(ns[0] == n); }
            else if n == ".pytest_cache"@ { assert(ns[1] == n); }
            else if n == ".mypy_cache"@ { assert(ns[2] == n); }
            else if n == ".ruff_cache"@ { assert(ns[3] == n); }
            else if n == ".venv"@ { assert(ns[4] == n); }
            else if n == "venv"@ { assert(ns[5] == n); }
            else if n == "env"@ { assert(ns[6] == n); }
            else if n == ".git"@ { assert(ns[7] == n); }
            else if n == "build"@ { assert(ns[8] == n); }
            else if n == "dist"@ { assert(ns[9] == n); }
            assert(python_ignored_name(n));
        }
    }
    let excl = |r: Seq<char>| python_skipped(r);
    lemma_listing_by_rel(fs, source, ListRule::Python, excl, listed);
}

} // verus!

