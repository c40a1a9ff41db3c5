//! Python packages: synced into the consumer's virtual environment.

use vstd::prelude::*;
use crate::listing::{strictly_sorted_paths, list_files_with, sorted_paths, walked, ListRule};
use crate::fs::{first_from, lemma_first_from, markers_with_fallback, read_text, read_text_exec, retain_with_parent, str_views, FsView, EntryKind};
use crate::manifest::{opt_str, read_name, read_name_safe, toml_name, toml_name_exec, LineRule, Rule};
use crate::model::{
    project_local, project_local_target, res_str, some_or_other, name_or_other_exec, ErrView,
    LinkdResult, ResolvedSyncTarget,
};
use crate::paths::{comp_views, components, file_name, file_name_exec, join, lemma_below_trans, lemma_join_below, path_components, path_join, path_starts_with};
use crate::text::{from_chars, is_prefix, lit, to_chars, views};

verus! {

/// Hint shown after Python files were synced.
pub const PYTHON_HINT: &'static str = "Python files synced to site-packages. Restart running python processes or servers to pick up module changes.";

/// Python build files in the source, or a virtual environment or Python
/// manifest in the consumer.
pub open spec fn python_detected(fs: FsView, source: Seq<char>, consumer: Seq<char>) -> bool {
    let source_is_python = fs.is_file(join(source, "pyproject.toml"@)) || fs.is_file(
        join(source, "setup.py"@),
    ) || fs.is_file(join(source, "setup.cfg"@));
    let consumer_is_python = fs.has_path(join(consumer, ".venv"@)) || fs.has_path(
        join(consumer, "venv"@),
    ) || fs.is_file(join(consumer, "pyproject.toml"@)) || fs.is_file(join(consumer, "Pipfile"@))
        || fs.is_file(join(consumer, "requirements.txt"@));
    source_is_python || consumer_is_python
}

/// Whether linking `source` into `consumer` is a Python link.
pub fn detect_python(fs: &FsView, source: &str, consumer: &str) -> (r: bool)
    ensures
        r == python_detected(*fs, source@, consumer@),
{
    let source_is_python = fs.is_file_exec(path_join(source, "pyproject.toml").as_str())
        || fs.is_file_exec(path_join(source, "setup.py").as_str()) || fs.is_file_exec(
        path_join(source, "setup.cfg").as_str(),
    );
    let consumer_is_python = fs.exists_exec(path_join(consumer, ".venv").as_str())
        || fs.exists_exec(path_join(consumer, "venv").as_str()) || fs.is_file_exec(
        path_join(consumer, "pyproject.toml").as_str(),
    ) || fs.is_file_exec(path_join(consumer, "Pipfile").as_str()) || fs.is_file_exec(
        path_join(consumer, "requirements.txt").as_str(),
    );
    source_is_python || consumer_is_python
}

/// The tables of `pyproject.toml` that carry the project's name.
pub open spec fn pyproject_tables() -> Seq<Seq<char>> {
    seq!["project"@, "tool.poetry"@, "tool.flit.metadata"@]
}

/// The name that a readable manifest `file` of `source` gives by `read`.
pub open spec fn manifest_name(fs: FsView, source: Seq<char>, file: Seq<char>, rule: Option<LineRule>) -> Option<Seq<char>> {
    let p = join(source, file);
    if fs.is_file(p) && read_text(fs, p) is Ok {
        let t = read_text(fs, p)->Ok_0;
        match rule {
            Some(r) => read_name(t, r),
            None => toml_name(t, pyproject_tables()),
        }
    } else {
        None
    }
}

/// The distribution name: from `pyproject.toml`, else `setup.cfg`, else
/// `setup.py`, else the name of the source directory.
pub open spec fn python_name(fs: FsView, source: Seq<char>) -> Option<Seq<char>> {
    let a = manifest_name(fs, source, "pyproject.toml"@, None);
    let b = manifest_name(fs, source, "setup.cfg"@, Some(LineRule::SetupCfg));
    let c = manifest_name(fs, source, "setup.py"@, Some(LineRule::SetupPy));
    if a is Some {
        a
    } else if b is Some {
        b
    } else if c is Some {
        c
    } else {
        file_name(source)
    }
}

fn manifest_name_exec(fs: &FsView, source: &str, file: &str, rule: Option<Rule>) -> (r: Option<String>)
    requires
        rule matches Some(x) ==> !(x@ is PackageId),
    ensures
        opt_str(r) == manifest_name(*fs, source@, file@, match rule { Some(x) => Some(x@), None => None }),
{
    let p = path_join(source, file);
    if !fs.is_file_exec(p.as_str()) {
        return None;
    }
    match read_text_exec(fs, p.as_str()) {
        Ok(t) => match rule {
            Some(x) => read_name_safe(t.as_str(), &x),
            None => {
                let mut secs: Vec<Vec<char>> = Vec::new();
                secs.push(lit("project"));
                secs.push(lit("tool.poetry"));
                secs.push(lit("tool.flit.metadata"));
                assert(views(secs@) =~= pyproject_tables());
                toml_name_exec(t.as_str(), &secs)
            },
        },
        Err(_) => None,
    }
}

/// What reading the package name of `source` gives.
pub open spec fn name_result(fs: FsView, source: Seq<char>) -> Result<Seq<char>, ErrView> {
    some_or_other(python_name(fs, source), "could not determine python package name"@)
}

/// The distribution name of the package at `source`.
pub fn parse_package_name(fs: &FsView, source: &str) -> (r: LinkdResult<String>)
    ensures
        res_str(r) == name_result(*fs, source@),
{
    let name = match manifest_name_exec(fs, source, "pyproject.toml", None) {
        Some(n) => Some(n),
        None => match manifest_name_exec(fs, source, "setup.cfg", Some(Rule::SetupCfg)) {
            Some(n) => Some(n),
            None => match manifest_name_exec(fs, source, "setup.py", Some(Rule::SetupPy)) {
                Some(n) => Some(n),
                None => file_name_exec(source),
            },
        },
    };
    name_or_other_exec(name, "could not determine python package name")
}

/// Files whose change shows that a Python installer finished.
pub open spec fn marker_candidates(consumer: Seq<char>) -> Seq<Seq<char>> {
    seq![
        join(consumer, "uv.lock"@),
        join(consumer, "poetry.lock"@),
        join(consumer, "Pipfile.lock"@),
        join(consumer, "requirements.txt"@),
        join(consumer, "pyproject.toml"@),
        join(join(consumer, ".venv"@), "pyvenv.cfg"@),
        join(join(consumer, "venv"@), "pyvenv.cfg"@),
    ]
}

/// The completion markers of `consumer`: the candidates whose directory
/// exists, or the fallback when none does.
pub open spec fn markers(fs: FsView, consumer: Seq<char>) -> Seq<Seq<char>> {
    markers_with_fallback(fs, marker_candidates(consumer), join(consumer, "pyproject.toml"@))
}

/// The markers whose directory exists, else `pyproject.toml`.
pub fn completion_markers(fs: &FsView, consumer_root: &str) -> (r: Vec<String>)
    ensures
        str_views(r@) == markers(*fs, consumer_root@),
{
    let dv = path_join(consumer_root, ".venv");
    let v = path_join(consumer_root, "venv");
    let mut cands: Vec<String> = Vec::new();
    cands.push(path_join(consumer_root, "uv.lock"));
    cands.push(path_join(consumer_root, "poetry.lock"));
    cands.push(path_join(consumer_root, "Pipfile.lock"));
    cands.push(path_join(consumer_root, "requirements.txt"));
    cands.push(path_join(consumer_root, "pyproject.toml"));
    cands.push(path_join(dv.as_str(), "pyvenv.cfg"));
    cands.push(path_join(v.as_str(), "pyvenv.cfg"));
    assert(str_views(cands@) =~= marker_candidates(consumer_root@));
    retain_with_parent(fs, cands, path_join(consumer_root, "pyproject.toml"))
}

/// The hint after a sync from `source`.
pub open spec fn hint(fs: FsView, source: Seq<char>) -> Option<Seq<char>> {
    if fs.has_path(join(source, "pyproject.toml"@)) || fs.has_path(join(source, "setup.py"@)) {
        Some(PYTHON_HINT@)
    } else {
        None
    }
}

/// A hint when the source has `pyproject.toml` or `setup.py`.
pub fn post_sync_hint(fs: &FsView, source: &str, consumer: &str) -> (r: Option<String>)
    ensures
        opt_str(r) == hint(*fs, source@),
{
    if fs.exists_exec(path_join(source, "pyproject.toml").as_str()) || fs.exists_exec(
        path_join(source, "setup.py").as_str(),
    ) {
        Some(PYTHON_HINT.to_owned())
    } else {
        None
    }
}

/// Which entries are `pythonX.Y` directories of `lib` holding `site-packages`.
pub open spec fn python_lib_dir(fs: FsView, lib: Seq<char>) -> spec_fn(int) -> bool {
    |i: int|
        fs.is_child(i, lib) && fs.kind_at(i) == EntryKind::Dir && is_prefix(
            "python"@,
            fs.name_at(i),
        ) && fs.has_path(join(fs.path_at(i), "site-packages"@))
}

/// The `site-packages` directory of one virtual environment, if it has one:
/// `Lib/site-packages`, `lib/site-packages`, or the first
/// `lib/python*/site-packages` in listing order.
pub open spec fn venv_site(fs: FsView, venv: Seq<char>) -> Option<Seq<char>> {
    let win = join(join(venv, "Lib"@), "site-packages"@);
    let low = join(join(venv, "lib"@), "site-packages"@);
    let lib = join(venv, "lib"@);
    if !fs.has_path(venv) {
        None
    } else if fs.has_path(win) {
        Some(win)
    } else if fs.has_path(low) {
        Some(low)
    } else if fs.is_dir(lib) {
        match first_from(fs.len(), 0, python_lib_dir(fs, lib)) {
            Some(i) => Some(join(fs.path_at(i), "site-packages"@)),
            None => None,
        }
    } else {
        None
    }
}

/// The first virtual environment (`.venv`, `venv`, `env`) with a
/// `site-packages` directory.
pub open spec fn find_site(fs: FsView, consumer: Seq<char>) -> Option<Seq<char>> {
    let a = venv_site(fs, join(consumer, ".venv"@));
    let b = venv_site(fs, join(consumer, "venv"@));
    let c = venv_site(fs, join(consumer, "env"@));
    if a is Some {
        a
    } else if b is Some {
        b
    } else {
        c
    }
}

fn python_lib_site(fs: &FsView, lib: &str) -> (r: Option<String>)
    ensures
        opt_str(r) == match first_from(fs.len(), 0, python_lib_dir(*fs, lib@)) {
            Some(i) => Some(join(fs.path_at(i), "site-packages"@)),
            None => None,
        },
{
    let dc = path_components(lib);
    let ghost pred = python_lib_dir(*fs, lib@);
    let py = lit("python");
    let mut i: usize = 0;
    while i < fs.entries.len()
        invariant
            i <= fs.entries.len(),
            comp_views(dc@) == components(lib@),
            py@ == "python"@,
            pred == python_lib_dir(*fs, lib@),
            first_from(fs.len(), 0, pred) == first_from(fs.len(), i as int, pred),
        decreases fs.entries.len() - i,
    {
        match fs.child_name_exec(i, &dc, Ghost(lib@)) {
            Some(name) => {
                let nv = to_chars(name.as_str());
                if fs.entries[i].kind == EntryKind::Dir {
                    if crate::text::strip_prefix_exec(&nv, &py).is_some() {
                        let cand = path_join(fs.entries[i].path.as_str(), "site-packages");
                        if fs.exists_exec(cand.as_str()) {
                            assert(pred(i as int));
                            return Some(cand);
                        }
                    }
                }
            },
            None => {},
        }
        i = i + 1;
    }
    None
}

fn venv_site_exec(fs: &FsView, venv: &str) -> (r: Option<String>)
    ensures
        opt_str(r) == venv_site(*fs, venv@),
{
    if !fs.exists_exec(venv) {
        return None;
    }
    let up = path_join(venv, "Lib");
    let win = path_join(up.as_str(), "site-packages");
    if fs.exists_exec(win.as_str()) {
        return Some(win);
    }
    let lib = path_join(venv, "lib");
    let low = path_join(lib.as_str(), "site-packages");
    if fs.exists_exec(low.as_str()) {
        return Some(low);
    }
    if fs.is_dir_exec(lib.as_str()) {
        python_lib_site(fs, lib.as_str())
    } else {
        None
    }
}

proof fn lemma_venv_site_below(fs: FsView, venv: Seq<char>)
    ensures
        venv_site(fs, venv) matches Some(site) ==> path_starts_with(site, venv),
{
    reveal_strlit("Lib");
    reveal_strlit("lib");
    reveal_strlit("site-packages");
    let up = join(venv, "Lib"@);
    let lib = join(venv, "lib"@);
    lemma_join_below(venv, "Lib"@);
    lemma_join_below(up, "site-packages"@);
    lemma_below_trans(join(up, "site-packages"@), up, venv);
    lemma_join_below(venv, "lib"@);
    lemma_join_below(lib, "site-packages"@);
    lemma_below_trans(join(lib, "site-packages"@), lib, venv);
    let pred = python_lib_dir(fs, lib);
    lemma_first_from(fs.len(), 0, pred);
    match first_from(fs.len(), 0, pred) {
        Some(k) => {
            assert(pred(k));
            let c = components(fs.path_at(k));
            assert(c.subrange(0, components(lib).len() as int) == components(lib)) by {
                assert(c.subrange(0, c.len() - 1) == components(lib));
                assert(c.subrange(0, components(lib).len() as int) =~= c.subrange(0, c.len() - 1));
            }
            assert(path_starts_with(fs.path_at(k), lib));
            lemma_join_below(fs.path_at(k), "site-packages"@);
            lemma_below_trans(join(fs.path_at(k), "site-packages"@), fs.path_at(k), lib);
            lemma_below_trans(join(fs.path_at(k), "site-packages"@), lib, venv);
        },
        None => {},
    }
}

/// The `site-packages` directory of a consumer lies in one of its virtual
/// environments (`.venv`, `venv`, `env`); the default one in `.venv`.
pub proof fn lemma_site_in_venv(fs: FsView, c: Seq<char>)
    ensures
        find_site(fs, c) matches Some(site) ==> path_starts_with(site, join(c, ".venv"@))
            || path_starts_with(site, join(c, "venv"@)) || path_starts_with(site, join(c, "env"@)),
        path_starts_with(default_site(c), join(c, ".venv"@)),
{
    lemma_venv_site_below(fs, join(c, ".venv"@));
    lemma_venv_site_below(fs, join(c, "venv"@));
    lemma_venv_site_below(fs, join(c, "env"@));
    reveal_strlit("lib");
    reveal_strlit("python3.11");
    reveal_strlit("site-packages");
    let v = join(c, ".venv"@);
    let l = join(v, "lib"@);
    let py = join(l, "python3.11"@);
    lemma_join_below(v, "lib"@);
    lemma_join_below(l, "python3.11"@);
    lemma_join_below(py, "site-packages"@);
    lemma_below_trans(py, l, v);
    lemma_below_trans(default_site(c), py, v);
}

/// `site-packages` of the consumer's first virtual environment that has one.
pub fn find_site_packages(fs: &FsView, consumer_root: &str) -> (r: Option<String>)
    ensures
        opt_str(r) == find_site(*fs, consumer_root@),
{
    match venv_site_exec(fs, path_join(consumer_root, ".venv").as_str()) {
        Some(s) => Some(s),
        None => match venv_site_exec(fs, path_join(consumer_root, "venv").as_str()) {
            Some(s) => Some(s),
            None => venv_site_exec(fs, path_join(consumer_root, "env").as_str()),
        },
    }
}

/// Where `site-packages` is assumed when no virtual environment has one.
pub open spec fn default_site(consumer: Seq<char>) -> Seq<char> {
    join(join(join(join(consumer, ".venv"@), "lib"@), "python3.11"@), "site-packages"@)
}

/// `consumer_root/.venv/lib/python3.11/site-packages`.
pub fn default_site_packages(consumer_root: &str) -> (r: String)
    ensures
        r@ == default_site(consumer_root@),
{
    let a = path_join(consumer_root, ".venv");
    let b = path_join(a.as_str(), "lib");
    let c = path_join(b.as_str(), "python3.11");
    path_join(c.as_str(), "site-packages")
}

/// The import name of a distribution: `-` becomes `_`.
pub open spec fn import_name(name: Seq<char>) -> Seq<char> {
    name.map_values(|c: char| if c == '-' { '_' } else { c })
}

/// `package_name` with every `-` replaced by `_`.
pub fn normalize_name(package_name: &str) -> (r: String)
    ensures
        r@ == import_name(package_name@),
{
    let v = to_chars(package_name);
    let mut out: Vec<char> = Vec::new();
    let mut i: usize = 0;
    while i < v.len()
        invariant
            i <= v.len(),
            out@ == import_name(v@.subrange(0, i as int)),
        decreases v.len() - i,
    {
        let c = v[i];
        out.push(if c == '-' { '_' } else { c });
        assert(import_name(v@.subrange(0, i + 1)) =~= import_name(v@.subrange(0, i as int)).push(
            if c == '-' { '_' } else { c },
        ));
        i = i + 1;
    }
    assert(v@.subrange(0, v.len() as int) =~= v@);
    from_chars(&out)
}

/// `site-packages/<import name>` in the consumer's virtual environment.
pub fn resolve_python_target(fs: &FsView, consumer_root: &str, package_name: &str) -> (r: LinkdResult<ResolvedSyncTarget>)
    ensures
        r matches Ok(t) && project_local(
            join(
                match find_site(*fs, consumer_root@) {
                    Some(s) => s,
                    None => default_site(consumer_root@),
                },
                import_name(package_name@),
            ),
            t,
        ),
{
    let normalized = normalize_name(package_name);
    let site = match find_site_packages(fs, consumer_root) {
        Some(s) => s,
        None => default_site_packages(consumer_root),
    };
    Ok(project_local_target(path_join(site.as_str(), normalized.as_str())))
}

/// The files of a Python package that are synced (see `ListRule::Python`).
pub fn list_files(fs: &FsView, source: &str) -> (r: LinkdResult<Vec<String>>)
    ensures
        r matches Ok(v) ==> (fs.distinct_paths() && source@.len() > 0 ==> strictly_sorted_paths(str_views(v@))),
        r matches Ok(v) && sorted_paths(str_views(v@)) && str_views(v@).to_multiset() == walked(
            *fs,
            source@,
            ListRule::Python,
            fs.len(),
        ).to_multiset(),
{
    Ok(list_files_with(fs, source, ListRule::Python))
}

/// Reading a Python package name tries `pyproject.toml` (its `[project]`,
/// `[tool.poetry]` and `[tool.flit.metadata]` tables), then `setup.cfg`,
/// then `setup.py`, then the name of the source directory; it fails only
/// when none gives a name, which needs a source without a file name (such
/// as `/`).
pub proof fn lemma_python_name_chain(fs: FsView, source: Seq<char>)
    ensures
        manifest_name(fs, source, "pyproject.toml"@, None) matches Some(n) ==> name_result(fs, source) == Ok::<
            Seq<char>,
            ErrView,
        >(n),
        manifest_name(fs, source, "pyproject.toml"@, None) is None ==> (manifest_name(
            fs,
            source,
            "setup.cfg"@,
            Some(LineRule::SetupCfg),
        ) matches Some(n) ==> name_result(fs, source) == Ok::<Seq<char>, ErrView>(n)),
        manifest_name(fs, source, "pyproject.toml"@, None) is None && manifest_name(
            fs,
            source,
            "setup.cfg"@,
            Some(LineRule::SetupCfg),
        ) is None ==> (manifest_name(fs, source, "setup.py"@, Some(LineRule::SetupPy)) matches Some(n)
            ==> name_result(fs, source) == Ok::<Seq<char>, ErrView>(n)),
        name_result(fs, source) is Err ==> file_name(source) is None && name_result(fs, source) == Err::<
            Seq<char>,
            ErrView,
        >(ErrView::Other("could not determine python package name"@)),
        file_name(source) is Some ==> name_result(fs, source) is Ok,
{
}

/// The `site-packages` directory that a Python package is synced into is
/// that of the first of `.venv`, `venv` and `env` that has one, searched in
/// this order; the default in `.venv` is used only when none of the three
/// has one.
pub proof fn lemma_first_venv_with_site(fs: FsView, c: Seq<char>)
    ensures
        venv_site(fs, join(c, ".venv"@)) matches Some(s) ==> find_site(fs, c) == Some(s),
        venv_site(fs, join(c, ".venv"@)) is None ==> (venv_site(fs, join(c, "venv"@)) matches Some(s)
            ==> find_site(fs, c) == Some(s)),
        venv_site(fs, join(c, ".venv"@)) is None && venv_site(fs, join(c, "venv"@)) is None ==> (venv_site(
            fs,
            join(c, "env"@),
        ) matches Some(s) ==> find_site(fs, c) == Some(s)),
        find_site(fs, c) is None <==> (venv_site(fs, join(c, ".venv"@)) is None && venv_site(
            fs,
            join(c, "venv"@),
        ) is None && venv_site(fs, join(c, "env"@)) is None),
{
}

/// The completion markers of a Python consumer: with the consumer and the
/// directories of all candidates present, `uv.lock`, `poetry.lock`, `Pipfile.lock`, `requirements.txt`, `pyproject.toml`, `.venv/pyvenv.cfg` and `venv/pyvenv.cfg`, in this order; without the
/// consumer, `pyproject.toml` alone. This holds of every view that, as a file
/// system does, holds the directory of each of its entries, for a consumer
/// path with at least one component.
pub proof fn lemma_python_markers(fs: FsView, c: Seq<char>)
    requires
        fs.parents_present(),
        components(c).len() > 0,
    ensures
        fs.has_path(c) && fs.has_path(join(c, ".venv"@)) && fs.has_path(join(c, "venv"@)) ==> markers(fs, c) == seq![
            join(c, "uv.lock"@),
            join(c, "poetry.lock"@),
            join(c, "Pipfile.lock"@),
            join(c, "requirements.txt"@),
            join(c, "pyproject.toml"@),
            join(join(c, ".venv"@), "pyvenv.cfg"@),
            join(join(c, "venv"@), "pyvenv.cfg"@),
        ],
        !fs.has_path(c) ==> markers(fs, c) == seq![join(c, "pyproject.toml"@)],
{
    reveal_strlit("uv.lock");
    assert(crate::paths::plain_name("uv.lock"@)) by {
        reveal_with_fuel(crate::paths::slash_free, 8);
        crate::paths::lemma_plain_name("uv.lock"@);
    }
    reveal_strlit("poetry.lock");
    assert(crate::paths::plain_name("poetry.lock"@)) by {
        reveal_with_fuel(crate::paths::slash_free, 12);
        crate::paths::lemma_plain_name("poetry.lock"@);
    }
    reveal_strlit("Pipfile.lock");
    assert(crate::paths::plain_name("Pipfile.lock"@)) by {
        reveal_with_fuel(crate::paths::slash_free, 13);
        crate::paths::lemma_plain_name("Pipfile.lock"@);
    }
    reveal_strlit("requirements.txt");
    assert(crate::paths::plain_name("requirements.txt"@)) by {
        reveal_with_fuel(crate::paths::slash_free, 17);
        crate::paths::lemma_plain_name("requirements.txt"@);
    }
    reveal_strlit("pyproject.toml");
    assert(crate::paths::plain_name("pyproject.toml"@)) by {
        reveal_with_fuel(crate::paths::slash_free, 15);
        crate::paths::lemma_plain_name("pyproject.toml"@);
    }
    reveal_strlit(".venv");
    assert(crate::paths::plain_name(".venv"@)) by {
        reveal_with_fuel(crate::paths::slash_free, 6);
        crate::paths::lemma_plain_name(".venv"@);
    }
    reveal_strlit("pyvenv.cfg");
    assert(crate::paths::plain_name("pyvenv.cfg"@)) by {
        reveal_with_fuel(crate::paths::slash_free, 11);
        crate::paths::lemma_plain_name("pyvenv.cfg"@);
    }
    reveal_strlit("venv");
    assert(crate::paths::plain_name("venv"@)) by {
        reveal_with_fuel(crate::paths::slash_free, 5);
        crate::paths::lemma_plain_name("venv"@);
    }
    if fs.has_path(join(c, ".venv"@)) {
        crate::fs::lemma_parent_present(fs, c, ".venv"@);
    }
    if fs.has_path(join(c, "venv"@)) {
        crate::fs::lemma_parent_present(fs, c, "venv"@);
    }
    crate::fs::lemma_parent_of_join(fs, c, "uv.lock"@);
    crate::fs::lemma_parent_of_join(fs, c, "poetry.lock"@);
    crate::fs::lemma_parent_of_join(fs, c, "Pipfile.lock"@);
    crate::fs::lemma_parent_of_join(fs, c, "requirements.txt"@);
    crate::fs::lemma_parent_of_join(fs, c, "pyproject.toml"@);
    crate::fs::lemma_parent_of_join(fs, join(c, ".venv"@), "pyvenv.cfg"@);
    crate::fs::lemma_parent_of_join(fs, join(c, "venv"@), "pyvenv.cfg"@);
    let cands = marker_candidates(c);
    assert(cands[0] == join(c, "uv.lock"@));
    assert(cands[1] == join(c, "poetry.lock"@));
    assert(cands[2] == join(c, "Pipfile.lock"@));
    assert(cands[3] == join(c, "requirements.txt"@));
    assert(cands[4] == join(c, "pyproject.toml"@));
    assert(cands[5] == join(join(c, ".venv"@), "pyvenv.cfg"@));
    assert(cands[6] == join(join(c, "venv"@), "pyvenv.cfg"@));
    if fs.has_path(c) && fs.has_path(join(c, ".venv"@)) && fs.has_path(join(c, "venv"@)) {
        crate::fs::lemma_keep_all(fs, cands);
    }
    if !fs.has_path(c) {
        crate::fs::lemma_keep_none(fs, cands);
    }
}

/// The `site-packages` of a virtual environment: none if it does not
/// exist; else `Lib/site-packages` if that exists, else `lib/site-packages`
/// if that exists; a directory that is found always exists.
pub proof fn lemma_venv_site_order(fs: FsView, v: Seq<char>)
    ensures
        !fs.has_path(v) ==> venv_site(fs, v) is None,
        fs.has_path(v) && fs.has_path(join(join(v, "Lib"@), "site-packages"@)) ==> venv_site(fs, v) == Some(
            join(join(v, "Lib"@), "site-packages"@),
        ),
        fs.has_path(v) && !fs.has_path(join(join(v, "Lib"@), "site-packages"@)) && fs.has_path(
            join(join(v, "lib"@), "site-packages"@),
        ) ==> venv_site(fs, v) == Some(join(join(v, "lib"@), "site-packages"@)),
        venv_site(fs, v) matches Some(x) ==> fs.has_path(x),
{
    lemma_first_from(fs.len(), 0, python_lib_dir(fs, join(v, "lib"@)));
}

} // verus!

