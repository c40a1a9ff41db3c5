//! Rust crates: synced into the consumer's `vendor/` directory.

use vstd::prelude::*;
use crate::fs::{markers_with_fallback, retain_with_parent, str_views, FsView};
use crate::manifest::{opt_str, toml_name, toml_name_exec};
use crate::model::{
    project_local, project_local_target, res_str, some_or_other, name_or_other_exec, ErrView,
    LinkdResult, ResolvedSyncTarget,
};
use crate::paths::{components, file_name, file_name_exec, join, path_join};
use crate::text::{lit, views};

verus! {

/// Hint shown after a Rust crate was synced.
pub const CARGO_HINT: &'static str = "Rust crate files synced to vendor. Ensure `.cargo/config.toml` has `[source.crates-io] replace-with = 'vendored-sources'` if vendoring.";

/// A `Cargo.toml` in the source or in the consumer.
pub fn detect_cargo(fs: &FsView, source: &str, consumer: &str) -> (r: bool)
    ensures
        r == (fs.is_file(join(source@, "Cargo.toml"@)) || fs.is_file(join(consumer@, "Cargo.toml"@))),
{
    let a = path_join(source, "Cargo.toml");
    let b = path_join(consumer, "Cargo.toml");
    fs.is_file_exec(a.as_str()) || fs.is_file_exec(b.as_str())
}

/// The crate name that `Cargo.toml` gives in its `[package]` table.
pub open spec fn manifest_crate_name(fs: FsView, source: Seq<char>) -> Option<Seq<char>> {
    let p = join(source, "Cargo.toml"@);
    if fs.is_file(p) {
        match fs.text_of(p) {
            Some(Ok(t)) => toml_name(t, seq!["package"@]),
            _ => None,
        }
    } else {
        None
    }
}

/// The name of the crate at `source`: from `Cargo.toml`, else the
/// directory's name.
pub open spec fn crate_name(fs: FsView, source: Seq<char>) -> Option<Seq<char>> {
    match manifest_crate_name(fs, source) {
        Some(n) => Some(n),
        None => file_name(source),
    }
}

/// What reading the crate name of `source` gives.
pub open spec fn name_result(fs: FsView, source: Seq<char>) -> Result<Seq<char>, ErrView> {
    some_or_other(crate_name(fs, source), "could not determine Cargo crate name"@)
}

/// The crate's name: `name` in the `[package]` table of `Cargo.toml`
/// (quotes dropped), else the name of the source directory.
pub fn parse_crate_name(fs: &FsView, source: &str) -> (r: LinkdResult<String>)
    ensures
        res_str(r) == name_result(*fs, source@),
{
    let p = path_join(source, "Cargo.toml");
    let mut found: Option<String> = None;
    if fs.is_file_exec(p.as_str()) {
        match fs.text_exec(p.as_str()) {
            Some(Ok(t)) => {
                let mut secs: Vec<Vec<char>> = Vec::new();
                secs.push(lit("package"));
                assert(views(secs@) =~= seq!["package"@]);
                found = toml_name_exec(t.as_str(), &secs);
            },
            _ => {},
        }
    }
    assert(opt_str(found) == manifest_crate_name(*fs, source@));
    let name = match found {
        Some(n) => Some(n),
        None => file_name_exec(source),
    };
    name_or_other_exec(name, "could not determine Cargo crate name")
}

/// Files whose change shows that Cargo finished in the consumer.
pub open spec fn marker_candidates(consumer: Seq<char>) -> Seq<Seq<char>> {
    seq![
        join(consumer, "Cargo.lock"@),
        join(join(consumer, ".cargo"@), "config.toml"@),
        join(join(consumer, ".cargo"@), "config"@),
    ]
}

/// The completion markers of `consumer`: the candidates whose directory
/// exists, or the fallback when none does.
pub open spec fn markers(fs: FsView, consumer: Seq<char>) -> Seq<Seq<char>> {
    markers_with_fallback(fs, marker_candidates(consumer), join(consumer, "Cargo.toml"@))
}

/// The markers whose directory exists, else `Cargo.toml`.
pub fn completion_markers(fs: &FsView, consumer_root: &str) -> (r: Vec<String>)
    ensures
        str_views(r@) == markers(*fs, consumer_root@),
{
    let dot_cargo = path_join(consumer_root, ".cargo");
    let mut cands: Vec<String> = Vec::new();
    cands.push(path_join(consumer_root, "Cargo.lock"));
    cands.push(path_join(dot_cargo.as_str(), "config.toml"));
    cands.push(path_join(dot_cargo.as_str(), "config"));
    assert(str_views(cands@) =~= marker_candidates(consumer_root@));
    retain_with_parent(fs, cands, path_join(consumer_root, "Cargo.toml"))
}

/// The hint after a sync from `source`.
pub open spec fn hint(fs: FsView, source: Seq<char>) -> Option<Seq<char>> {
    if fs.has_path(join(source, "Cargo.toml"@)) {
        Some(CARGO_HINT@)
    } else {
        None
    }
}

/// A hint when the source is a crate (`Cargo.toml` exists).
pub fn post_sync_hint(fs: &FsView, source: &str, consumer: &str) -> (r: Option<String>)
    ensures
        opt_str(r) == hint(*fs, source@),
{
    let p = path_join(source, "Cargo.toml");
    if fs.exists_exec(p.as_str()) {
        Some(CARGO_HINT.to_owned())
    } else {
        None
    }
}

/// `consumer_root/vendor/<crate_name>`, in the consumer itself.
pub fn resolve_cargo_target(consumer_root: &str, crate_name: &str) -> (r: LinkdResult<ResolvedSyncTarget>)
    ensures
        r matches Ok(t) && project_local(join(join(consumer_root@, "vendor"@), crate_name@), t),
{
    let vendor = path_join(consumer_root, "vendor");
    Ok(project_local_target(path_join(vendor.as_str(), crate_name)))
}

/// The completion markers of a consumer that exists are `Cargo.lock`, then
/// `.cargo/config.toml` and `.cargo/config` when `.cargo` exists; of a
/// consumer that does not exist, `Cargo.toml` alone. This holds of every
/// view that, as a file system does, holds the directory of each of its
/// entries, for a consumer path with at least one component.
pub proof fn lemma_cargo_markers(fs: FsView, c: Seq<char>)
    requires
        fs.parents_present(),
        components(c).len() > 0,
    ensures
        fs.has_path(c) ==> markers(fs, c) == seq![join(c, "Cargo.lock"@)] + if fs.has_path(join(c, ".cargo"@)) {
            seq![join(join(c, ".cargo"@), "config.toml"@), join(join(c, ".cargo"@), "config"@)]
        } else {
            seq![]
        },
        !fs.has_path(c) ==> markers(fs, c) == seq![join(c, "Cargo.toml"@)],
{
    reveal_strlit(".cargo");
    assert(crate::paths::plain_name(".cargo"@)) by {
        reveal_with_fuel(crate::paths::slash_free, 7);
        crate::paths::lemma_plain_name(".cargo"@);
    }
    if fs.has_path(join(c, ".cargo"@)) {
        crate::fs::lemma_parent_present(fs, c, ".cargo"@);
    }
    reveal_strlit("Cargo.lock");
    reveal_strlit("config.toml");
    assert(crate::paths::plain_name("config.toml"@)) by {
        reveal_with_fuel(crate::paths::slash_free, 12);
        crate::paths::lemma_plain_name("config.toml"@);
    }
    reveal_strlit("config");
    assert(crate::paths::plain_name("config"@)) by {
        reveal_with_fuel(crate::paths::slash_free, 7);
        crate::paths::lemma_plain_name("config"@);
    }
    assert(crate::paths::plain_name("Cargo.lock"@)) by {
        reveal_with_fuel(crate::paths::slash_free, 11);
        crate::paths::lemma_plain_name("Cargo.lock"@);
    }
    crate::fs::lemma_parent_of_join(fs, c, "Cargo.lock"@);
    crate::fs::lemma_parent_of_join(fs, join(c, ".cargo"@), "config.toml"@);
    crate::fs::lemma_parent_of_join(fs, join(c, ".cargo"@), "config"@);
    reveal_with_fuel(crate::fs::keep_with_parent, 4);
    let cands = marker_candidates(c);
    assert(cands.drop_first().drop_first().drop_first() =~= Seq::<Seq<char>>::empty());
    assert(cands.drop_first()[0] == cands[1]);
    assert(cands.drop_first().drop_first()[0] == cands[2]);
    if fs.has_path(c) {
        assert(crate::fs::keep_with_parent(fs, cands) =~= seq![join(c, "Cargo.lock"@)] + if fs.has_path(join(c, ".cargo"@)) {
            seq![join(join(c, ".cargo"@), "config.toml"@), join(join(c, ".cargo"@), "config"@)]
        } else {
            seq![]
        });
    } else {
        assert(crate::fs::keep_with_parent(fs, cands) =~= Seq::<Seq<char>>::empty());
    }
}

/// A crate is named by `name` in the `[package]` table of its readable
/// `Cargo.toml`; otherwise by the name of its directory.
pub proof fn lemma_crate_name(fs: FsView, s: Seq<char>)
    ensures
        fs.is_file(join(s, "Cargo.toml"@)) ==> (fs.text_of(join(s, "Cargo.toml"@)) matches Some(Ok(t)) ==> (
        toml_name(t, seq!["package"@]) matches Some(n) ==> name_result(fs, s) == Ok::<Seq<char>, ErrView>(n))),
        !fs.is_file(join(s, "Cargo.toml"@)) ==> (file_name(s) matches Some(d) ==> name_result(fs, s) == Ok::<
            Seq<char>,
            ErrView,
        >(d)),
{
}

} // verus!
