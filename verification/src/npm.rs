//! JavaScript packages (npm, pnpm, yarn, bun): synced into `node_modules/`,
//! or into a private shadow copy when that entry lives in the pnpm store.

use vstd::prelude::*;
use crate::allowlist::{AllowlistView, WriteAllowlist};
use crate::fs::{read_text, read_text_exec, str_views, FsView};
use crate::json::{json_name, json_string_member, member_view};
use crate::manifest::opt_str;
use crate::model::{res_str, res_target, ErrView, IsolationMode, LinkdError, LinkdResult, ResolvedSyncTarget, TargetView};
use crate::paths::{join, path_join, path_starts_with, starts_with_exec};
use crate::text::{copy_range, find, find_exec, from_chars, starts_with_char, to_chars, trim, trim_exec};

verus! {

/// A JavaScript package manager.
#[derive(Clone, Copy, Debug, PartialEq, Eq, Structural)]
pub enum PackageManager {
    Npm,
    Pnpm,
    Yarn,
    Bun,
    Unknown,
}

/// The package manager that the consumer's lock files point to.
pub open spec fn detected_pm(fs: FsView, c: Seq<char>) -> PackageManager {
    if fs.has_path(join(c, "pnpm-lock.yaml"@)) || fs.has_path(join(c, "pnpm-workspace.yaml"@)) {
        PackageManager::Pnpm
    } else if fs.has_path(join(c, "yarn.lock"@)) {
        PackageManager::Yarn
    } else if fs.has_path(join(c, "bun.lockb"@)) {
        PackageManager::Bun
    } else if fs.has_path(join(c, "package-lock.json"@)) || fs.has_path(
        join(join(c, "node_modules"@), ".package-lock.json"@),
    ) {
        PackageManager::Npm
    } else {
        PackageManager::Unknown
    }
}

/// pnpm, yarn, bun or npm by their lock files, in that order of precedence.
pub fn detect_package_manager(fs: &FsView, consumer_root: &str) -> (r: PackageManager)
    ensures
        r == detected_pm(*fs, consumer_root@),
{
    if fs.exists_exec(path_join(consumer_root, "pnpm-lock.yaml").as_str()) || fs.exists_exec(
        path_join(consumer_root, "pnpm-workspace.yaml").as_str(),
    ) {
        return PackageManager::Pnpm;
    }
    if fs.exists_exec(path_join(consumer_root, "yarn.lock").as_str()) {
        return PackageManager::Yarn;
    }
    if fs.exists_exec(path_join(consumer_root, "bun.lockb").as_str()) {
        return PackageManager::Bun;
    }
    let nm = path_join(consumer_root, "node_modules");
    if fs.exists_exec(path_join(consumer_root, "package-lock.json").as_str()) || fs.exists_exec(
        path_join(nm.as_str(), ".package-lock.json").as_str(),
    ) {
        return PackageManager::Npm;
    }
    PackageManager::Unknown
}

/// The name of a package manager, in lower case.
pub open spec fn pm_name(pm: PackageManager) -> Seq<char> {
    match pm {
        PackageManager::Npm => "npm"@,
        PackageManager::Pnpm => "pnpm"@,
        PackageManager::Yarn => "yarn"@,
        PackageManager::Bun => "bun"@,
        PackageManager::Unknown => "unknown"@,
    }
}

/// The name of a package manager, in lower case.
pub fn pm_label(pm: PackageManager) -> (r: &'static str)
    ensures
        r@ == pm_name(pm),
{
    match pm {
        PackageManager::Npm => "npm",
        PackageManager::Pnpm => "pnpm",
        PackageManager::Yarn => "yarn",
        PackageManager::Bun => "bun",
        PackageManager::Unknown => "unknown",
    }
}

/// Yarn Plug'n'Play: `.pnp.cjs` or `.pnp.js` in the consumer.
pub fn is_yarn_pnp(fs: &FsView, consumer_root: &str) -> (r: bool)
    ensures
        r == (fs.has_path(join(consumer_root@, ".pnp.cjs"@)) || fs.has_path(
            join(consumer_root@, ".pnp.js"@),
        )),
{
    fs.exists_exec(path_join(consumer_root, ".pnp.cjs").as_str()) || fs.exists_exec(
        path_join(consumer_root, ".pnp.js").as_str(),
    )
}

/// The files that each package manager writes when an install finishes.
pub open spec fn pm_markers(fs: FsView, c: Seq<char>, pm: PackageManager) -> Seq<Seq<char>> {
    let nm = join(c, "node_modules"@);
    match pm {
        PackageManager::Npm => seq![join(nm, ".package-lock.json"@)],
        PackageManager::Pnpm => seq![join(nm, ".modules.yaml"@)],
        PackageManager::Yarn => seq![join(nm, ".yarn-integrity"@)],
        PackageManager::Bun => if fs.has_path(join(nm, ".bun-tag"@)) {
            seq![join(c, "bun.lockb"@), join(nm, ".bun-tag"@)]
        } else {
            seq![join(c, "bun.lockb"@)]
        },
        PackageManager::Unknown => seq![join(nm, ".package-lock.json"@), join(nm, ".modules.yaml"@)],
    }
}

/// The install-completion markers of package manager `pm`.
pub fn completion_markers(fs: &FsView, consumer_root: &str, pm: PackageManager) -> (r: Vec<String>)
    ensures
        str_views(r@) == pm_markers(*fs, consumer_root@, pm),
{
    let nm = path_join(consumer_root, "node_modules");
    let mut v: Vec<String> = Vec::new();
    match pm {
        PackageManager::Npm => {
            v.push(path_join(nm.as_str(), ".package-lock.json"));
        },
        PackageManager::Pnpm => {
            v.push(path_join(nm.as_str(), ".modules.yaml"));
        },
        PackageManager::Yarn => {
            v.push(path_join(nm.as_str(), ".yarn-integrity"));
        },
        PackageManager::Bun => {
            v.push(path_join(consumer_root, "bun.lockb"));
            let tag = path_join(nm.as_str(), ".bun-tag");
            if fs.exists_exec(tag.as_str()) {
                v.push(tag);
            }
        },
        PackageManager::Unknown => {
            v.push(path_join(nm.as_str(), ".package-lock.json"));
            v.push(path_join(nm.as_str(), ".modules.yaml"));
        },
    }
    assert(str_views(v@) =~= pm_markers(*fs, consumer_root@, pm));
    v
}

/// Where the package manager puts `name`: `node_modules/<name>`, or
/// `node_modules/<@scope>/<name>` for a scoped name.
pub open spec fn node_modules_target(c: Seq<char>, name: Seq<char>) -> Seq<char> {
    let nm = join(c, "node_modules"@);
    if starts_with_char(name, '@') && find(name, seq!['/']) is Some {
        let k = find(name, seq!['/'])->Some_0;
        join(join(nm, name.subrange(0, k)), name.subrange(k + 1, name.len() as int))
    } else {
        join(nm, name)
    }
}

/// `consumer_root/node_modules/<package_name>` (scope and name as two
/// components for `@scope/name`).
pub fn resolve_node_modules_target(consumer_root: &str, package_name: &str) -> (r: String)
    ensures
        r@ == node_modules_target(consumer_root@, package_name@),
{
    let target = path_join(consumer_root, "node_modules");
    let name = to_chars(package_name);
    if name.len() > 0 && name[0] == '@' {
        let mut slash: Vec<char> = Vec::new();
        slash.push('/');
        assert(slash@ =~= seq!['/']);
        match find_exec(&name, &slash) {
            Some(k) => {
                assert(crate::text::occurs_at(name@, slash@, k as int));
                assert(k + 1 <= name.len());
                let scope = from_chars(&copy_range(&name, 0, k));
                let rest = from_chars(&copy_range(&name, k + 1, name.len()));
                let t2 = path_join(target.as_str(), scope.as_str());
                return path_join(t2.as_str(), rest.as_str());
            },
            None => {},
        }
    }
    path_join(target.as_str(), package_name)
}

/// The private copy of a package that shadows a pnpm store entry:
/// `node_modules/.linkd-shadow/<package>`.
pub open spec fn shadow_target(c: Seq<char>, name: Seq<char>) -> Seq<char> {
    join(join(join(c, "node_modules"@), ".linkd-shadow"@), name)
}

/// `consumer_root/node_modules/.linkd-shadow/<package_name>`.
pub fn shadow_target_path(consumer_root: &str, package_name: &str) -> (r: String)
    ensures
        r@ == shadow_target(consumer_root@, package_name@),
{
    let a = path_join(consumer_root, "node_modules");
    let b = path_join(a.as_str(), ".linkd-shadow");
    path_join(b.as_str(), package_name)
}

/// The package name, given what the JSON reader found as the `name` member
/// of `package.json`.
pub open spec fn name_from_member(m: Result<Option<Seq<char>>, Seq<char>>) -> Result<Seq<char>, ErrView> {
    match m {
        Ok(Some(n)) => Ok(n),
        Ok(None) => Err(ErrView::NpmPackFailed("package.json missing name"@)),
        Err(e) => Err(ErrView::NpmPackFailed(e)),
    }
}

/// What reading the package name of `source` gives.
pub open spec fn name_result(fs: FsView, source: Seq<char>) -> Result<Seq<char>, ErrView> {
    let p = join(source, "package.json"@);
    match read_text(fs, p) {
        Err(m) => Err(ErrView::Io(p, m)),
        Ok(t) => name_from_member(json_string_member(t, "name"@)),
    }
}

/// The package name from what serde_json read of `package.json`.
pub fn npm_name_from_json(parsed: Result<Option<String>, String>) -> (r: LinkdResult<String>)
    ensures
        res_str(r) == name_from_member(member_view(parsed)),
{
    match parsed {
        Ok(Some(n)) => Ok(n),
        Ok(None) => Err(LinkdError::NpmPackFailed("package.json missing name".to_owned())),
        Err(m) => Err(LinkdError::NpmPackFailed(m)),
    }
}

/// The `name` member of the source's `package.json`.
pub fn parse_package_name(fs: &FsView, source: &str) -> (r: LinkdResult<String>)
    ensures
        res_str(r) == name_result(*fs, source@),
{
    let p = path_join(source, "package.json");
    match read_text_exec(fs, p.as_str()) {
        Err(m) => Err(LinkdError::Io { path: p, message: m }),
        Ok(t) => npm_name_from_json(json_name(t.as_str())),
    }
}

/// Whether `p` lies under one of the store `roots`, both taken as their
/// canonical paths and compared by components.
pub open spec fn in_store(fs: FsView, p: Seq<char>, roots: Seq<Seq<char>>) -> bool {
    exists|i: int|
        0 <= i < roots.len() && path_starts_with(fs.canonical_of(p), fs.canonical_of(#[trigger] roots[i]))
}

/// Where the pnpm store may lie: `$PNPM_HOME/store`, the two per-user
/// default locations under the home directory, and what `pnpm store path`
/// printed, each where it is known.
pub open spec fn store_candidates(
    pnpm_home: Option<Seq<char>>,
    home: Option<Seq<char>>,
    command_store: Option<Seq<char>>,
) -> Seq<Seq<char>> {
    let a: Seq<Seq<char>> = match pnpm_home {
        Some(h) => seq![join(h, "store"@)],
        None => seq![],
    };
    let b: Seq<Seq<char>> = match home {
        Some(h) => seq![join(h, ".local/share/pnpm/store"@), join(h, "AppData/Local/pnpm/store"@)],
        None => seq![],
    };
    let c: Seq<Seq<char>> = match command_store {
        Some(p) => seq![p],
        None => seq![],
    };
    a + b + c
}

/// The candidates that exist, each as its canonical path.
pub open spec fn existing_canonical(fs: FsView, ps: Seq<Seq<char>>) -> Seq<Seq<char>>
    decreases ps.len(),
{
    if ps.len() == 0 {
        seq![]
    } else {
        let rest = existing_canonical(fs, ps.drop_last());
        if fs.has_path(ps.last()) {
            rest.push(fs.canonical_of(ps.last()))
        } else {
            rest
        }
    }
}

/// The store path that `pnpm store path` reported: its trimmed output, when
/// it succeeded and printed something.
pub open spec fn store_path_reported(success: bool, stdout: Seq<char>) -> Option<Seq<char>> {
    if !success || trim(stdout).len() == 0 {
        None
    } else {
        Some(trim(stdout))
    }
}

/// Where the npm package `name` of consumer `c` is written, given the
/// canonical pnpm store `roots`.
pub open spec fn npm_target(fs: FsView, c: Seq<char>, name: Seq<char>, roots: Seq<Seq<char>>) -> TargetView {
    let logical = node_modules_target(c, name);
    if in_store(fs, fs.canonical_of(logical), roots) {
        TargetView { logical, sync: shadow_target(c, name), mode: IsolationMode::Shadow, forbidden: roots }
    } else {
        TargetView { logical, sync: logical, mode: IsolationMode::ProjectLocal, forbidden: roots }
    }
}

/// Decides where npm links of a consumer may write, so that nothing is ever
/// written into the shared pnpm store.
pub struct PnpmStoreDetector;

impl PnpmStoreDetector {
    /// The pnpm store roots among `candidates` (see `store_candidates`):
    /// those that exist, as canonical paths.
    pub fn global_store_paths(fs: &FsView, candidates: &Vec<String>) -> (r: Vec<String>)
        ensures
            str_views(r@) == existing_canonical(*fs, str_views(candidates@)),
    {
        let mut out: Vec<String> = Vec::new();
        let mut i: usize = 0;
        while i < candidates.len()
            invariant
                i <= candidates.len(),
                str_views(out@) == existing_canonical(*fs, str_views(candidates@).subrange(0, i as int)),
            decreases candidates.len() - i,
        {
            let ghost pre = str_views(candidates@).subrange(0, i as int);
            let ghost next = str_views(candidates@).subrange(0, i + 1);
            assert(next.drop_last() =~= pre);
            assert(next.last() == candidates@[i as int]@);
            if fs.exists_exec(candidates[i].as_str()) {
                out.push(fs.canonical_exec(candidates[i].as_str()));
                assert(str_views(out@) =~= str_views(out@).drop_last().push(out@.last()@));
            }
            i = i + 1;
        }
        assert(str_views(candidates@).subrange(0, candidates.len() as int) =~= str_views(candidates@));
        out
    }

    /// The candidate store locations, in the order in which they are tried.
    pub fn store_candidate_paths(pnpm_home: Option<&str>, home: Option<&str>, command_store: Option<String>) -> (r: Vec<String>)
        ensures
            str_views(r@) == store_candidates(
                match pnpm_home { Some(h) => Some(h@), None => None },
                match home { Some(h) => Some(h@), None => None },
                match command_store { Some(p) => Some(p@), None => None },
            ),
    {
        let mut v: Vec<String> = Vec::new();
        match pnpm_home {
            Some(h) => {
                v.push(path_join(h, "store"));
            },
            None => {},
        }
        match home {
            Some(h) => {
                v.push(path_join(h, ".local/share/pnpm/store"));
                v.push(path_join(h, "AppData/Local/pnpm/store"));
            },
            None => {},
        }
        match command_store {
            Some(p) => {
                v.push(p);
            },
            None => {},
        }
        assert(str_views(v@) =~= store_candidates(
            match pnpm_home { Some(h) => Some(h@), None => None },
            match home { Some(h) => Some(h@), None => None },
            match command_store { Some(p) => Some(p@), None => None },
        ));
        v
    }

    /// The store path in the output of `pnpm store path`.
    pub fn store_path_from_output(success: bool, stdout: &str) -> (r: Option<String>)
        ensures
            opt_str(r) == store_path_reported(success, stdout@),
    {
        if !success {
            return None;
        }
        let t = trim_exec(&to_chars(stdout));
        if t.len() == 0 {
            return None;
        }
        Some(from_chars(&t))
    }

    /// Whether `path` lies under one of `roots`, both taken canonically.
    pub fn is_global_store_path_with(fs: &FsView, path: &str, roots: &Vec<String>) -> (r: bool)
        ensures
            r == in_store(*fs, path@, str_views(roots@)),
    {
        let canonical = fs.canonical_exec(path);
        let mut i: usize = 0;
        while i < roots.len()
            invariant
                i <= roots.len(),
                canonical@ == fs.canonical_of(path@),
                forall|j: int|
                    0 <= j < i ==> !path_starts_with(
                        fs.canonical_of(path@),
                        fs.canonical_of(#[trigger] str_views(roots@)[j]),
                    ),
            decreases roots.len() - i,
        {
            let store = fs.canonical_exec(roots[i].as_str());
            if starts_with_exec(canonical.as_str(), store.as_str()) {
                assert(path_starts_with(fs.canonical_of(path@), fs.canonical_of(str_views(roots@)[i as int])));
                return true;
            }
            i = i + 1;
        }
        false
    }

    /// Whether `path` lies in the pnpm global store, whose roots (as given by
    /// `global_store_paths`) are `global_roots`.
    pub fn is_global_store_path(fs: &FsView, path: &str, global_roots: &Vec<String>) -> (r: bool)
        ensures
            r == in_store(*fs, path@, str_views(global_roots@)),
    {
        Self::is_global_store_path_with(fs, path, global_roots)
    }

    /// The sync target of npm package `package_name` in `consumer_root`:
    /// its `node_modules` entry, or a shadow copy when that entry resolves
    /// into the pnpm store. The store roots become the forbidden roots.
    pub fn resolve(fs: &FsView, consumer_root: &str, package_name: &str, global_roots: Vec<String>) -> (r: LinkdResult<ResolvedSyncTarget>)
        ensures
            res_target(r) == Ok::<TargetView, ErrView>(
                npm_target(*fs, consumer_root@, package_name@, str_views(global_roots@)),
            ),
    {
        let logical = resolve_node_modules_target(consumer_root, package_name);
        let resolved = if fs.exists_exec(logical.as_str()) {
            fs.canonical_exec(logical.as_str())
        } else {
            logical.clone()
        };
        if Self::is_global_store_path(fs, resolved.as_str(), &global_roots) {
            let shadow = shadow_target_path(consumer_root, package_name);
            return Ok(ResolvedSyncTarget {
                logical_target: logical,
                sync_target: shadow,
                isolation_mode: IsolationMode::Shadow,
                forbidden_roots: global_roots,
            });
        }
        let sync = logical.clone();
        Ok(ResolvedSyncTarget {
            logical_target: logical,
            sync_target: sync,
            isolation_mode: IsolationMode::ProjectLocal,
            forbidden_roots: global_roots,
        })
    }

    /// Refuses a sync target inside the pnpm global store.
    pub fn assert_never_writes_global_store(fs: &FsView, sync_target: &str, global_roots: &Vec<String>) -> (r: LinkdResult<()>)
        ensures
            in_store(*fs, sync_target@, str_views(global_roots@)) ==> (r matches Err(
                LinkdError::PnpmGlobalStoreForbidden(m),
            ) && m@ == sync_target@),
            !in_store(*fs, sync_target@, str_views(global_roots@)) ==> r is Ok,
    {
        if Self::is_global_store_path(fs, sync_target, global_roots) {
            return Err(LinkdError::PnpmGlobalStoreForbidden(sync_target.to_owned()));
        }
        Ok(())
    }

    /// npm links may write anywhere in the consumer, except `forbidden`.
    pub fn build_allowlist(consumer_root: &str, forbidden: Vec<String>) -> (r: WriteAllowlist)
        ensures
            r@ == (AllowlistView { allowed: seq![consumer_root@], forbidden: str_views(forbidden@) }),
    {
        WriteAllowlist::from_consumer(consumer_root, forbidden)
    }
}

/// The symbolic link that a shadow target needs: from the package's
/// `node_modules` entry to its shadow copy.
pub fn shadow_redirect(resolved: &ResolvedSyncTarget) -> (r: Option<(String, String)>)
    ensures
        resolved.isolation_mode == IsolationMode::Shadow ==> (r matches Some((l, s))
            && l@ == resolved.logical_target@ && s@ == resolved.sync_target@),
        resolved.isolation_mode == IsolationMode::ProjectLocal ==> r is None,
{
    if resolved.isolation_mode == IsolationMode::Shadow {
        Some((resolved.logical_target.clone(), resolved.sync_target.clone()))
    } else {
        None
    }
}

/// An npm entry that resolves into the pnpm store is never written in
/// place: its sync target is the shadow copy; any other entry is written
/// where the package manager put it. The store roots stay forbidden either
/// way.
pub proof fn lemma_store_entry_shadowed(fs: FsView, c: Seq<char>, name: Seq<char>, roots: Seq<Seq<char>>)
    ensures
        ({
            let t = npm_target(fs, c, name, roots);
            &&& t.logical == node_modules_target(c, name)
            &&& t.forbidden == roots
            &&& in_store(fs, fs.canonical_of(t.logical), roots) ==> t.sync == shadow_target(c, name)
                && t.mode == IsolationMode::Shadow
            &&& !in_store(fs, fs.canonical_of(t.logical), roots) ==> t.sync == t.logical
                && t.mode == IsolationMode::ProjectLocal
        }),
{
}

/// An npm package is named by the string `name` of its `package.json`; a
/// `package.json` without one is refused.
pub proof fn lemma_npm_name_from_json(fs: FsView, s: Seq<char>, t: Seq<char>)
    requires
        read_text(fs, join(s, "package.json"@)) == Ok::<Seq<char>, Seq<char>>(t),
    ensures
        json_string_member(t, "name"@) matches Ok(Some(n)) ==> name_result(fs, s) == Ok::<Seq<char>, ErrView>(n),
        json_string_member(t, "name"@) == Ok::<Option<Seq<char>>, Seq<char>>(None) ==> name_result(fs, s) == Err::<
            Seq<char>,
            ErrView,
        >(ErrView::NpmPackFailed("package.json missing name"@)),
{
}

} // verus!
