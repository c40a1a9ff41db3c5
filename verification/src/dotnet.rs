//! .NET packages: synced into the consumer's `packages/` folder.

use vstd::prelude::*;
use crate::fs::{markers_with_fallback, read_text, read_text_exec, retain_with_parent, str_views, FsView};
use crate::manifest::{read_panics_exec, opt_str, read_name, read_name_exec, read_panics, LineRule, Rule};
use crate::model::{
    project_local, project_local_target, res_str, some_or_not_found, name_or_not_found_exec, ErrView,
    LinkdResult, ResolvedSyncTarget,
};
use crate::paths::{components, file_name, file_name_exec, join, path_join, stem_exec, stem_of};
use crate::text::{from_chars, lit, to_chars, views};

verus! {

/// Hint shown after a .NET package was synced.
pub const DOTNET_HINT: &'static str = ".NET package synced into packages/ folder. Run 'dotnet build' to compile.";

/// Files whose change shows that a NuGet restore finished.
pub open spec fn marker_candidates(consumer: Seq<char>) -> Seq<Seq<char>> {
    seq![
        join(join(consumer, "obj"@), "project.assets.json"@),
        join(consumer, "packages.lock.json"@),
        join(consumer, "Directory.Packages.props"@),
    ]
}

/// The completion markers of `consumer`: the candidates whose directory
/// exists, or the fallback when none does.
pub open spec fn markers(fs: FsView, consumer: Seq<char>) -> Seq<Seq<char>> {
    markers_with_fallback(fs, marker_candidates(consumer), join(join(consumer, "obj"@), "project.assets.json"@))
}

/// The markers whose directory exists, else `obj/project.assets.json`.
pub fn completion_markers(fs: &FsView, consumer_root: &str) -> (r: Vec<String>)
    ensures
        str_views(r@) == markers(*fs, consumer_root@),
{
    let obj = path_join(consumer_root, "obj");
    let mut cands: Vec<String> = Vec::new();
    cands.push(path_join(obj.as_str(), "project.assets.json"));
    cands.push(path_join(consumer_root, "packages.lock.json"));
    cands.push(path_join(consumer_root, "Directory.Packages.props"));
    assert(str_views(cands@) =~= marker_candidates(consumer_root@));
    retain_with_parent(fs, cands, path_join(obj.as_str(), "project.assets.json"))
}

/// The hint after every .NET sync.
pub fn post_sync_hint(source: &str, consumer: &str) -> (r: Option<String>)
    ensures
        opt_str(r) == Some(DOTNET_HINT@),
{
    Some(DOTNET_HINT.to_owned())
}

/// Extensions of .NET project files.
pub open spec fn project_exts() -> Seq<Seq<char>> {
    seq!["csproj"@, "fsproj"@]
}

/// The text of a readable file, if any.
pub open spec fn readable(fs: FsView, p: Seq<char>) -> Option<Seq<char>> {
    match read_text(fs, p) {
        Ok(t) => Some(t),
        Err(_) => None,
    }
}

/// The package id: from the first project file of the source (its
/// `<PackageId>`, else its file stem), else from `Directory.Build.props`,
/// else the name of the source directory.
pub open spec fn dotnet_name(fs: FsView, source: Seq<char>) -> Option<Seq<char>> {
    match fs.first_child_with_ext(source, project_exts()) {
        Some(i) => {
            let id = match readable(fs, fs.path_at(i)) {
                Some(t) => read_name(t, LineRule::PackageId),
                None => None,
            };
            match id {
                Some(x) => Some(x),
                None => Some(stem_of(fs.name_at(i))),
            }
        },
        None => {
            let props = join(source, "Directory.Build.props"@);
            let id = if fs.is_file(props) {
                match readable(fs, props) {
                    Some(t) => read_name(t, LineRule::PackageId),
                    None => None,
                }
            } else {
                None
            };
            match id {
                Some(x) => Some(x),
                None => file_name(source),
            }
        },
    }
}

/// Whether finding the package id reads a `<PackageId>` line that holds
/// the closing tag before the opening one (the slice then panics).
pub open spec fn dotnet_read_panics(fs: FsView, source: Seq<char>) -> bool {
    match fs.first_child_with_ext(source, project_exts()) {
        Some(i) => match readable(fs, fs.path_at(i)) {
            Some(t) => read_panics(t, LineRule::PackageId),
            None => false,
        },
        None => {
            let props = join(source, "Directory.Build.props"@);
            fs.is_file(props) && match readable(fs, props) {
                Some(t) => read_panics(t, LineRule::PackageId),
                None => false,
            }
        },
    }
}

fn readable_exec(fs: &FsView, p: &str) -> (r: Option<String>)
    ensures
        opt_str(r) == readable(*fs, p@),
{
    match read_text_exec(fs, p) {
        Ok(t) => Some(t),
        Err(_) => None,
    }
}

/// Whether finding the package id of `source` would panic (see
/// `dotnet_read_panics`).
pub fn dotnet_read_would_panic(fs: &FsView, source: &str) -> (r: bool)
    ensures
        r == dotnet_read_panics(*fs, source@),
{
    let mut exts: Vec<Vec<char>> = Vec::new();
    exts.push(lit("csproj"));
    exts.push(lit("fsproj"));
    assert(views(exts@) =~= project_exts());
    match fs.first_child_with_ext_exec(source, &exts) {
        Some((i, _)) => match readable_exec(fs, fs.entries[i].path.as_str()) {
            Some(t) => read_panics_exec(t.as_str(), &Rule::PackageId),
            None => false,
        },
        None => {
            let props = path_join(source, "Directory.Build.props");
            if fs.is_file_exec(props.as_str()) {
                match readable_exec(fs, props.as_str()) {
                    Some(t) => read_panics_exec(t.as_str(), &Rule::PackageId),
                    None => false,
                }
            } else {
                false
            }
        },
    }
}

/// What reading the package id of `source` gives.
pub open spec fn name_result(fs: FsView, source: Seq<char>) -> Result<Seq<char>, ErrView> {
    some_or_not_found(dotnet_name(fs, source), ".NET project (.csproj/.fsproj)"@)
}

/// The package id of the .NET project at `source`.
pub fn parse_package_name(fs: &FsView, source: &str) -> (r: LinkdResult<String>)
    requires
        !dotnet_read_panics(*fs, source@),
    ensures
        res_str(r) == name_result(*fs, source@),
{
    let mut exts: Vec<Vec<char>> = Vec::new();
    exts.push(lit("csproj"));
    exts.push(lit("fsproj"));
    assert(views(exts@) =~= project_exts());
    let name = match fs.first_child_with_ext_exec(source, &exts) {
        Some((i, fname)) => {
            let id = match readable_exec(fs, fs.entries[i].path.as_str()) {
                Some(t) => read_name_exec(t.as_str(), &Rule::PackageId),
                None => None,
            };
            match id {
                Some(x) => Some(x),
                None => Some(from_chars(&stem_exec(&to_chars(fname.as_str())))),
            }
        },
        None => {
            let props = path_join(source, "Directory.Build.props");
            let id = if fs.is_file_exec(props.as_str()) {
                match readable_exec(fs, props.as_str()) {
                    Some(t) => read_name_exec(t.as_str(), &Rule::PackageId),
                    None => None,
                }
            } else {
                None
            };
            match id {
                Some(x) => Some(x),
                None => file_name_exec(source),
            }
        },
    };
    name_or_not_found_exec(name, ".NET project (.csproj/.fsproj)")
}

/// `consumer_root/packages/<package_name>`.
pub fn resolve_dotnet_target(consumer_root: &str, package_name: &str) -> (r: LinkdResult<ResolvedSyncTarget>)
    ensures
        r matches Ok(t) && project_local(join(join(consumer_root@, "packages"@), package_name@), t),
{
    let a = path_join(consumer_root, "packages");
    Ok(project_local_target(path_join(a.as_str(), package_name)))
}

/// Extensions that mark a .NET directory.
pub open spec fn manifest_exts() -> Seq<Seq<char>> {
    seq!["csproj"@, "fsproj"@, "sln"@]
}

/// A .NET build file in `dir`, or a project or solution file among its
/// entries.
pub open spec fn dotnet_manifest(fs: FsView, dir: Seq<char>) -> bool {
    ||| fs.is_file(join(dir, "Directory.Build.props"@))
    ||| fs.is_file(join(dir, "global.json"@))
    ||| fs.is_file(join(dir, "NuGet.Config"@))
    ||| fs.first_child_with_ext(dir, manifest_exts()) is Some
}

/// Whether `dir` holds a .NET manifest.
pub fn has_dotnet_manifest(fs: &FsView, dir: &str) -> (r: bool)
    ensures
        r == dotnet_manifest(*fs, dir@),
{
    if fs.is_file_exec(path_join(dir, "Directory.Build.props").as_str()) || fs.is_file_exec(
        path_join(dir, "global.json").as_str(),
    ) || fs.is_file_exec(path_join(dir, "NuGet.Config").as_str()) {
        return true;
    }
    let mut exts: Vec<Vec<char>> = Vec::new();
    exts.push(lit("csproj"));
    exts.push(lit("fsproj"));
    exts.push(lit("sln"));
    assert(views(exts@) =~= manifest_exts());
    fs.first_child_with_ext_exec(dir, &exts).is_some()
}

/// A .NET manifest in the source or in the consumer.
pub fn detect_dotnet(fs: &FsView, source: &str, consumer: &str) -> (r: bool)
    ensures
        r == (dotnet_manifest(*fs, source@) || dotnet_manifest(*fs, consumer@)),
{
    has_dotnet_manifest(fs, source) || has_dotnet_manifest(fs, consumer)
}

/// The completion markers of a .NET consumer: with the consumer and the
/// directories of all candidates present, `obj/project.assets.json`, `packages.lock.json` and `Directory.Packages.props`, in this order; without the
/// consumer, `obj/project.assets.json` alone. This holds of every view that, as a file
/// system does, holds the directory of each of its entries, for a consumer
/// path with at least one component.
pub proof fn lemma_dotnet_markers(fs: FsView, c: Seq<char>)
    requires
        fs.parents_present(),
        components(c).len() > 0,
    ensures
        fs.has_path(c) && fs.has_path(join(c, "obj"@)) ==> markers(fs, c) == seq![
            join(join(c, "obj"@), "project.assets.json"@),
            join(c, "packages.lock.json"@),
            join(c, "Directory.Packages.props"@),
        ],
        !fs.has_path(c) ==> markers(fs, c) == seq![join(join(c, "obj"@), "project.assets.json"@)],
{
    reveal_strlit("obj");
    assert(crate::paths::plain_name("obj"@)) by {
        reveal_with_fuel(crate::paths::slash_free, 4);
        crate::paths::lemma_plain_name("obj"@);
    }
    reveal_strlit("project.assets.json");
    assert(crate::paths::plain_name("project.assets.json"@)) by {
        reveal_with_fuel(crate::paths::slash_free, 20);
        assert("project.assets.json"@.len() == 19);
        assert("project.assets.json"@ != seq!['.']);
        assert("project.assets.json"@ != seq!['.', '.']);
        crate::paths::lemma_plain_name("project.assets.json"@);
    }
    reveal_strlit("packages.lock.json");
    assert(crate::paths::plain_name("packages.lock.json"@)) by {
        reveal_with_fuel(crate::paths::slash_free, 19);
        crate::paths::lemma_plain_name("packages.lock.json"@);
    }
    reveal_strlit("Directory.Packages.props");
    assert(crate::paths::plain_name("Directory.Packages.props"@)) by {
        reveal_with_fuel(crate::paths::slash_free, 25);
        crate::paths::lemma_plain_name("Directory.Packages.props"@);
    }
    if fs.has_path(join(c, "obj"@)) {
        crate::fs::lemma_parent_present(fs, c, "obj"@);
    }
    crate::fs::lemma_parent_of_join(fs, join(c, "obj"@), "project.assets.json"@);
    crate::fs::lemma_parent_of_join(fs, c, "packages.lock.json"@);
    crate::fs::lemma_parent_of_join(fs, c, "Directory.Packages.props"@);
    let cands = marker_candidates(c);
    assert(cands[0] == join(join(c, "obj"@), "project.assets.json"@));
    assert(cands[1] == join(c, "packages.lock.json"@));
    assert(cands[2] == join(c, "Directory.Packages.props"@));
    if fs.has_path(c) && fs.has_path(join(c, "obj"@)) {
        crate::fs::lemma_keep_all(fs, cands);
    }
    if !fs.has_path(c) {
        crate::fs::lemma_keep_none(fs, cands);
    }
}

} // verus!
