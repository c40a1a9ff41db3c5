//! The decisions behind the command-line interface: ecosystem arguments,
//! labels, explanations, registration, the doctor's checks and the grouped
//! list of links.

use vstd::prelude::*;
use vstd::string::StringSliceAdditionalSpecFns;
use crate::dispatch::{detected_ecosystem, detect_ecosystem, name_read_panics, name_result, package_name_for};
use crate::fs::{str_views, FsView};
use crate::model::{res_str, Ecosystem, ErrView, LinkEntry, LinkEntryView, LinkSyncStatus, LinkdResult};
use crate::npm::{in_store, PnpmStoreDetector};
use crate::order::chars_order;
use crate::paths::{join, path_join};
use crate::text::{chars_eq, to_chars};

verus! {

/// The ecosystems that the `--ecosystem` option names.
#[derive(Clone, Copy, Debug, PartialEq, Eq, Structural)]
pub enum EcosystemArg {
    Npm,
    Composer,
    Python,
    Go,
    Cargo,
    Jvm,
    Dart,
    Flutter,
    Custom,
}

/// The ecosystem that an `--ecosystem` value stands for; Flutter packages
/// are Dart packages.
pub open spec fn arg_ecosystem(a: EcosystemArg) -> Ecosystem {
    match a {
        EcosystemArg::Npm => Ecosystem::Npm,
        EcosystemArg::Composer => Ecosystem::Composer,
        EcosystemArg::Python => Ecosystem::Python,
        EcosystemArg::Go => Ecosystem::Go,
        EcosystemArg::Cargo => Ecosystem::Cargo,
        EcosystemArg::Jvm => Ecosystem::Jvm,
        EcosystemArg::Dart | EcosystemArg::Flutter => Ecosystem::Dart,
        EcosystemArg::Custom => Ecosystem::Custom,
    }
}

impl EcosystemArg {
    /// The ecosystem that this value stands for.
    pub fn to_ecosystem(self) -> (r: Ecosystem)
        ensures
            r == arg_ecosystem(self),
    {
        match self {
            EcosystemArg::Npm => Ecosystem::Npm,
            EcosystemArg::Composer => Ecosystem::Composer,
            EcosystemArg::Python => Ecosystem::Python,
            EcosystemArg::Go => Ecosystem::Go,
            EcosystemArg::Cargo => Ecosystem::Cargo,
            EcosystemArg::Jvm => Ecosystem::Jvm,
            EcosystemArg::Dart | EcosystemArg::Flutter => Ecosystem::Dart,
            EcosystemArg::Custom => Ecosystem::Custom,
        }
    }
}

/// The badge of an ecosystem in lists of links.
pub open spec fn eco_badge(e: Ecosystem) -> Seq<char> {
    match e {
        Ecosystem::Npm => "[npm]"@,
        Ecosystem::Composer => "[composer]"@,
        Ecosystem::Python => "[python]"@,
        Ecosystem::Go => "[go]"@,
        Ecosystem::Cargo => "[cargo]"@,
        Ecosystem::Jvm => "[jvm]"@,
        Ecosystem::Dart => "[dart/flutter]"@,
        Ecosystem::Dotnet => "[dotnet]"@,
        Ecosystem::Ruby => "[ruby]"@,
        Ecosystem::Swift => "[swift]"@,
        Ecosystem::Elixir => "[elixir]"@,
        Ecosystem::Custom => "[custom]"@,
    }
}

/// The badge of an ecosystem in lists of links.
pub fn eco_label(e: Ecosystem) -> (r: &'static str)
    ensures
        r@ == eco_badge(e),
{
    match e {
        Ecosystem::Npm => "[npm]",
        Ecosystem::Composer => "[composer]",
        Ecosystem::Python => "[python]",
        Ecosystem::Go => "[go]",
        Ecosystem::Cargo => "[cargo]",
        Ecosystem::Jvm => "[jvm]",
        Ecosystem::Dart => "[dart/flutter]",
        Ecosystem::Dotnet => "[dotnet]",
        Ecosystem::Ruby => "[ruby]",
        Ecosystem::Swift => "[swift]",
        Ecosystem::Elixir => "[elixir]",
        Ecosystem::Custom => "[custom]",
    }
}

/// The sync state of a link as the list of links shows it.
pub open spec fn status_text(s: LinkSyncStatus) -> Seq<char> {
    match s {
        LinkSyncStatus::Synced => "✓ synced"@,
        LinkSyncStatus::Syncing => "⏳ syncing"@,
        LinkSyncStatus::Pending => "… pending"@,
        LinkSyncStatus::Error => "✗ error"@,
        LinkSyncStatus::Paused => "⏸ paused"@,
    }
}

/// The sync state of a link as the list of links shows it.
pub fn status_label(s: LinkSyncStatus) -> (r: &'static str)
    ensures
        r@ == status_text(s),
{
    match s {
        LinkSyncStatus::Synced => "✓ synced",
        LinkSyncStatus::Syncing => "⏳ syncing",
        LinkSyncStatus::Pending => "… pending",
        LinkSyncStatus::Error => "✗ error",
        LinkSyncStatus::Paused => "⏸ paused",
    }
}

/// The sync state of a link as the live monitor shows it.
pub open spec fn status_badge_text(s: LinkSyncStatus) -> Seq<char> {
    match s {
        LinkSyncStatus::Synced => "[IDLE]"@,
        LinkSyncStatus::Syncing => "[SYNC]"@,
        LinkSyncStatus::Error => "[ERR]"@,
        LinkSyncStatus::Pending => "[PEND]"@,
        LinkSyncStatus::Paused => "[PAUSED]"@,
    }
}

/// The sync state of a link as the live monitor shows it.
pub fn status_badge(s: LinkSyncStatus) -> (r: &'static str)
    ensures
        r@ == status_badge_text(s),
{
    match s {
        LinkSyncStatus::Synced => "[IDLE]",
        LinkSyncStatus::Syncing => "[SYNC]",
        LinkSyncStatus::Error => "[ERR]",
        LinkSyncStatus::Pending => "[PEND]",
        LinkSyncStatus::Paused => "[PAUSED]",
    }
}

/// `1 consumer`, or `<n> consumers`.
pub open spec fn consumers_text(n: nat) -> Seq<char> {
    if n == 1 {
        "1 consumer"@
    } else {
        crate::text::dec(n) + " consumers"@
    }
}

/// How many consumers a package is linked into, in words.
pub fn consumer_label(n: u64) -> (r: String)
    ensures
        r@ == consumers_text(n as nat),
{
    if n == 1 {
        return "1 consumer".to_owned();
    }
    let mut v: Vec<char> = Vec::new();
    crate::text::push_decimal(&mut v, n);
    crate::text::push_str(&mut v, " consumers");
    crate::text::from_chars(&v)
}

/// The indices below `n` at which `names` holds `key`, in increasing order.
pub open spec fn indices_of(names: Seq<Seq<char>>, key: Seq<char>, n: int) -> Seq<int>
    decreases n,
{
    if n <= 0 {
        seq![]
    } else if names[n - 1] == key {
        indices_of(names, key, n - 1).push(n - 1)
    } else {
        indices_of(names, key, n - 1)
    }
}

/// A grouping as a value of the specification.
pub open spec fn group_views(g: Seq<(String, Vec<usize>)>) -> Seq<(Seq<char>, Seq<int>)> {
    g.map_values(|e: (String, Vec<usize>)| (e.0@, e.1@.map_values(|i: usize| i as int)))
}

/// Whether `g` groups the first `n` of `names`: one group per distinct name,
/// in increasing order of names, each with the indices of that name.
pub open spec fn groups_of(g: Seq<(Seq<char>, Seq<int>)>, names: Seq<Seq<char>>, n: int) -> bool {
    &&& forall|a: int, b: int| 0 <= a < b < g.len() ==> chars_order(#[trigger] g[a].0, #[trigger] g[b].0) < 0
    &&& forall|k: int| 0 <= k < g.len() ==> (#[trigger] g[k]).1 == indices_of(names, g[k].0, n) && g[k].1.len() > 0
    &&& forall|j: int| 0 <= j < n ==> exists|k: int| 0 <= k < g.len() && (#[trigger] g[k]).0 == #[trigger] names[j]
}

proof fn lemma_indices_absent(names: Seq<Seq<char>>, key: Seq<char>, n: int)
    requires
        forall|j: int| 0 <= j < n ==> names[j] != key,
    ensures
        indices_of(names, key, n) == Seq::<int>::empty(),
    decreases n,
{
    if n > 0 {
        lemma_indices_absent(names, key, n - 1);
    }
}

/// The links grouped by package name, the names in increasing order, each
/// with the positions of its links in the order in which they come.
pub fn group_by_package(links: &Vec<LinkEntry>) -> (r: Vec<(String, Vec<usize>)>)
    ensures
        groups_of(group_views(r@), links@.map_values(|l: LinkEntry| l.package_name@), links@.len() as int),
{
    let ghost names = links@.map_values(|l: LinkEntry| l.package_name@);
    let mut groups: Vec<(String, Vec<usize>)> = Vec::new();
    let mut i: usize = 0;
    assert(group_views(groups@) =~= Seq::<(Seq<char>, Seq<int>)>::empty());
    while i < links.len()
        invariant
            i <= links@.len(),
            names == links@.map_values(|l: LinkEntry| l.package_name@),
            groups_of(group_views(groups@), names, i as int),
        decreases links.len() - i,
    {
        let name = to_chars(links[i].package_name.as_str());
        let ghost x = name@;
        assert(names[i as int] == x);
        let ghost gv = group_views(groups@);
        // Find the group of `name`, or the position where it belongs.
        let mut k: usize = 0;
        let mut found = false;
        while k < groups.len()
            invariant_except_break
                !found,
            invariant
                k <= groups@.len(),
                x == name@,
                gv == group_views(groups@),
                forall|m: int| 0 <= m < k ==> chars_order(#[trigger] gv[m].0, x) < 0,
            ensures
                k <= groups@.len(),
                gv == group_views(groups@),
                forall|m: int| 0 <= m < k ==> chars_order(#[trigger] gv[m].0, x) < 0,
                found ==> k < groups@.len() && gv[k as int].0 == x,
                !found && k < groups@.len() ==> chars_order(gv[k as int].0, x) > 0,
            decreases groups.len() - k,
        {
            let key_chars = to_chars(groups[k].0.as_str());
            let o = crate::order::chars_order_exec(&key_chars, &name);
            proof {
                assert(gv[k as int].0 == groups@[k as int].0@);
                assert(key_chars@ == gv[k as int].0);
                crate::order::lemma_chars_order(gv[k as int].0, x, x);
            }
            if o == 0 {
                found = true;
                break;
            }
            if o > 0 {
                break;
            }
            k = k + 1;
        }
        if found {
            let ghost before = groups@;
            let (key, mut idx) = groups.remove(k);
            let ghost old_idx = idx@;
            assert(gv[k as int] == (key@, old_idx.map_values(|j: usize| j as int)));
            idx.push(i);
            assert(idx@.map_values(|j: usize| j as int) =~= old_idx.map_values(|j: usize| j as int).push(i as int));
            groups.insert(k, (key, idx));
            proof {
                let nv = group_views(groups@);
                assert(groups@ =~= before.update(k as int, groups@[k as int]));
                assert(nv =~= gv.update(k as int, (x, gv[k as int].1.push(i as int))));
                assert forall|m: int| 0 <= m < nv.len() implies (#[trigger] nv[m]).1 == indices_of(names, nv[m].0, i + 1) && nv[m].1.len() > 0 by {
                    if m != k {
                        crate::order::lemma_chars_order(gv[m].0, x, x);
                        if m > k {
                            assert(chars_order(gv[k as int].0, gv[m].0) < 0);
                            crate::order::lemma_chars_order(gv[k as int].0, gv[m].0, x);
                        }
                        assert(gv[m].0 != x);
                    }
                }
                assert forall|j: int| 0 <= j < i + 1 implies exists|q: int| 0 <= q < nv.len() && (#[trigger] nv[q]).0 == #[trigger] names[j] by {
                    if j == i {
                        assert(nv[k as int].0 == names[j]);
                    } else {
                        let q = choose|q: int| 0 <= q < gv.len() && (#[trigger] gv[q]).0 == names[j];
                        assert(nv[q].0 == names[j]);
                    }
                }
            }
        } else {
            let mut idx: Vec<usize> = Vec::new();
            idx.push(i);
            assert(idx@.map_values(|j: usize| j as int) =~= seq![i as int]);
            let key = links[i].package_name.clone();
            assert(key@ == x);
            let ghost before = groups@;
            groups.insert(k, (key, idx));
            proof {
                let nv = group_views(groups@);
                assert(nv[k as int] == (x, seq![i as int]));
                assert(nv =~= gv.insert(k as int, (x, seq![i as int])));
                assert forall|j: int| 0 <= j < i implies names[j] != x by {
                    let q = choose|q: int| 0 <= q < gv.len() && (#[trigger] gv[q]).0 == names[j];
                    if q < k {
                        assert(chars_order(gv[q].0, x) < 0);
                    } else {
                        crate::order::lemma_chars_order(gv[k as int].0, gv[q].0, x);
                        crate::order::lemma_chars_order(gv[q].0, gv[k as int].0, x);
                    }
                    crate::order::lemma_chars_order(gv[q].0, x, x);
                }
                lemma_indices_absent(names, x, i as int);
                assert forall|a: int, b: int| 0 <= a < b < nv.len() implies chars_order(#[trigger] nv[a].0, #[trigger] nv[b].0) < 0 by {
                    if b < k {
                    } else if b == k {
                    } else if a < k {
                        crate::order::lemma_chars_order(nv[a].0, x, nv[b].0);
                        crate::order::lemma_chars_order(gv[k as int].0, gv[b - 1].0, x);
                        crate::order::lemma_chars_order(x, gv[k as int].0, gv[b - 1].0);
                    } else if a == k {
                        crate::order::lemma_chars_order(gv[k as int].0, gv[b - 1].0, x);
                        crate::order::lemma_chars_order(x, gv[k as int].0, gv[b - 1].0);
                    } else {
                    }
                }
                assert forall|m: int| 0 <= m < nv.len() implies (#[trigger] nv[m]).1 == indices_of(names, nv[m].0, i + 1) && nv[m].1.len() > 0 by {
                    if m != k {
                        let om = if m < k { m } else { m - 1 };
                        assert(nv[m] == gv[om]);
                        crate::order::lemma_chars_order(gv[om].0, x, x);
                        if om >= k {
                            crate::order::lemma_chars_order(gv[k as int].0, gv[om].0, x);
                            crate::order::lemma_chars_order(x, gv[k as int].0, gv[om].0);
                        }
                        assert(gv[om].0 != x);
                    } else {
                        assert(indices_of(names, x, i as int) =~= Seq::<int>::empty());
                        assert(nv[m].1 =~= seq![i as int]);
                    }
                }
                assert forall|j: int| 0 <= j < i + 1 implies exists|q: int| 0 <= q < nv.len() && (#[trigger] nv[q]).0 == #[trigger] names[j] by {
                    if j == i {
                        assert(nv[k as int].0 == names[j]);
                    } else {
                        let q = choose|q: int| 0 <= q < gv.len() && (#[trigger] gv[q]).0 == names[j];
                        if q < k {
                            assert(nv[q].0 == names[j]);
                        } else {
                            assert(nv[q + 1].0 == names[j]);
                        }
                    }
                }
            }
        }
        i = i + 1;
    }
    groups
}

/// What `doctor --explain pnpm-store` prints.
pub const PNPM_STORE_TEXT: &'static str = "pnpm stores packages in a global content-addressable store.\nlinkd NEVER writes there directly.\nWhen needed, it creates an isolated copy under:\nnode_modules/.linkd-shadow/<package>\nand repoints the project symlink to that shadow copy.";

/// What `doctor --explain composer` prints.
pub const COMPOSER_TEXT: &'static str = "Composer ecosystem in linkd:\n- Links resolve to consumer/vendor/<vendor>/<package>\n- Watches vendor/composer/installed.json and classmap files\n- When new PHP classes are added to source, run:\ncomposer dump-autoload\nin the consumer project if classes are not detected.";

/// What `doctor --explain python` prints.
pub const PYTHON_TEXT: &'static str = "Python ecosystem in linkd (uv / pip / poetry):\n- Links resolve to consumer/.venv/Lib/site-packages/<package> (or Unix lib/python*/...)\n- Watches uv.lock, poetry.lock, requirements.txt, pyvenv.cfg\n- Automatically filters __pycache__, *.pyc, .pytest_cache";

/// What `doctor --explain go` prints.
pub const GO_TEXT: &'static str = "Go ecosystem in linkd (Go modules / vendor):\n- Links resolve to consumer/vendor/<module_path>\n- Watches go.sum, go.work.sum, go.work\n- Use `go build -mod=vendor` or Go workspaces (`go work`)";

/// What `doctor --explain cargo` prints.
pub const CARGO_TEXT: &'static str = "Rust / Cargo ecosystem in linkd:\n- Links resolve to consumer/vendor/<crate_name>\n- Watches Cargo.lock\n- Automatically filters target/ and build caches";

/// What `doctor --explain jvm` prints.
pub const JVM_TEXT: &'static str = "JVM ecosystem in linkd (Maven / Gradle):\n- Links resolve to consumer/libs/<artifact> or Maven Local repo\n- Watches pom.xml, build.gradle, gradle.lockfile";

/// What `doctor --explain autostart` prints.
pub const AUTOSTART_TEXT: &'static str = "Background daemon:\nlinkd start   — detached daemon (recommended)\nlinkd watch   — foreground with live UI\nAuto-start on `linkd link` is enabled by default (~/.linkd/config.json).\n\nmacOS launchd plist (~/Library/LaunchAgents/dev.linkd.daemon.plist):\n<?xml version=\"1.0\" encoding=\"UTF-8\"?>\n<!DOCTYPE plist PUBLIC \"-//Apple//DTD PLIST 1.0//EN\" \"http://www.apple.com/DTDs/PropertyList-1.0.dtd\">\n<plist version=\"1.0\">\n<dict>\n<key>Label</key><string>dev.linkd.daemon</string>\n<key>ProgramArguments</key>\n<array><string>/usr/local/bin/linkd</string><string>--daemon-internal</string></array>\n<key>RunAtLoad</key><true/>\n<key>KeepAlive</key><true/>\n</dict>\n</plist>\n\nLinux systemd user unit (~/.config/systemd/user/linkd.service):\n[Unit]\nDescription=linkd local-dev link daemon\nAfter=default.target\n\n[Service]\nExecStart=/usr/local/bin/linkd --daemon-internal\nRestart=always\n\n[Install]\nWantedBy=default.target";

/// What `doctor --explain <topic>` prints, or the refusal of an unknown
/// topic.
pub open spec fn explanation(topic: Seq<char>) -> Result<Seq<char>, Seq<char>> {
    if topic == "pnpm-store"@ {
        Ok(PNPM_STORE_TEXT@)
    } else if topic == "composer"@ {
        Ok(COMPOSER_TEXT@)
    } else if topic == "python"@ {
        Ok(PYTHON_TEXT@)
    } else if topic == "go"@ {
        Ok(GO_TEXT@)
    } else if topic == "cargo"@ || topic == "rust"@ {
        Ok(CARGO_TEXT@)
    } else if topic == "jvm"@ || topic == "maven"@ || topic == "gradle"@ {
        Ok(JVM_TEXT@)
    } else if topic == "autostart"@ {
        Ok(AUTOSTART_TEXT@)
    } else {
        Err("unknown explain topic: "@ + topic)
    }
}

/// Whether two texts are equal.
pub fn str_eq(a: &str, b: &str) -> (r: bool)
    ensures
        r == (a@ == b@),
{
    chars_eq(&to_chars(a), &to_chars(b))
}

/// The explanation of `topic` for `doctor --explain`; an unknown topic is
/// refused with its name.
pub fn explain_topic(topic: &str) -> (r: Result<&'static str, String>)
    ensures
        match r {
            Ok(t) => explanation(topic@) == Ok::<Seq<char>, Seq<char>>(t@),
            Err(m) => explanation(topic@) == Err::<Seq<char>, Seq<char>>(m@),
        },
{
    if str_eq(topic, "pnpm-store") {
        return Ok(PNPM_STORE_TEXT);
    }
    if str_eq(topic, "composer") {
        return Ok(COMPOSER_TEXT);
    }
    if str_eq(topic, "python") {
        return Ok(PYTHON_TEXT);
    }
    if str_eq(topic, "go") {
        return Ok(GO_TEXT);
    }
    if str_eq(topic, "cargo") || str_eq(topic, "rust") {
        return Ok(CARGO_TEXT);
    }
    if str_eq(topic, "jvm") || str_eq(topic, "maven") || str_eq(topic, "gradle") {
        return Ok(JVM_TEXT);
    }
    if str_eq(topic, "autostart") {
        return Ok(AUTOSTART_TEXT);
    }
    let mut v: Vec<char> = Vec::new();
    crate::text::push_str(&mut v, "unknown explain topic: ");
    crate::text::push_str(&mut v, topic);
    Err(crate::text::from_chars(&v))
}

/// The ecosystem a package is registered under: the one given, else the
/// one its directory's manifests point to.
pub open spec fn registered_ecosystem(fs: FsView, path: Seq<char>, eco: Option<Ecosystem>) -> Ecosystem {
    match eco {
        Some(e) => e,
        None => detected_ecosystem(fs, path, path),
    }
}

/// The ecosystem and the name under which the package at `path` is
/// registered: the name given, else the one its manifest declares.
pub fn register_package(fs: &FsView, path: &str, name: Option<String>, ecosystem: Option<Ecosystem>) -> (r: (
    Ecosystem,
    LinkdResult<String>,
))
    requires
        name is None ==> !name_read_panics(registered_ecosystem(*fs, path@, ecosystem), *fs, path@),
    ensures
        r.0 == registered_ecosystem(*fs, path@, ecosystem),
        res_str(r.1) == match name {
            Some(n) => Ok::<Seq<char>, ErrView>(n@),
            None => name_result(r.0, *fs, path@),
        },
{
    let eco = match ecosystem {
        Some(e) => e,
        None => detect_ecosystem(fs, path, path),
    };
    match name {
        Some(n) => (eco, Ok(n)),
        None => (eco, package_name_for(eco, fs, path)),
    }
}

/// A problem of a registered link that the doctor reports.
#[derive(Clone, Copy, Debug, PartialEq, Eq, Structural)]
pub enum LinkIssue {
    /// The consumer uses Yarn Plug'n'Play, which has no `node_modules`.
    YarnPnp,
    /// The source directory is gone.
    StaleSource,
    /// The sync target lies in the pnpm global store.
    InGlobalStore,
}

/// The problems of `link`, in the order in which the doctor checks them.
pub open spec fn issues_of(fs: FsView, link: LinkEntry, roots: Seq<Seq<char>>) -> Seq<LinkIssue> {
    let c = link.consumer_root@;
    let a: Seq<LinkIssue> = if fs.has_path(join(c, ".pnp.cjs"@)) || fs.has_path(join(c, ".pnp.js"@)) {
        seq![LinkIssue::YarnPnp]
    } else {
        seq![]
    };
    let b: Seq<LinkIssue> = if !fs.has_path(link.source_path@) {
        seq![LinkIssue::StaleSource]
    } else {
        seq![]
    };
    let d: Seq<LinkIssue> = if in_store(fs, link.sync_target@, roots) {
        seq![LinkIssue::InGlobalStore]
    } else {
        seq![]
    };
    a + b + d
}

/// The problems of a registered link: Yarn PnP in its consumer, a missing
/// source, a sync target in the pnpm global store (`global_roots`).
pub fn link_issues(fs: &FsView, link: &LinkEntry, global_roots: &Vec<String>) -> (r: Vec<LinkIssue>)
    ensures
        r@ == issues_of(*fs, *link, str_views(global_roots@)),
{
    let mut v: Vec<LinkIssue> = Vec::new();
    if crate::npm::is_yarn_pnp(fs, link.consumer_root.as_str()) {
        v.push(LinkIssue::YarnPnp);
    }
    if !fs.exists_exec(link.source_path.as_str()) {
        v.push(LinkIssue::StaleSource);
    }
    if PnpmStoreDetector::is_global_store_path(fs, link.sync_target.as_str(), global_roots) {
        v.push(LinkIssue::InGlobalStore);
    }
    assert(v@ =~= issues_of(*fs, *link, str_views(global_roots@)));
    v
}

/// Whether some directory of the search path holds a file named `exe`.
pub open spec fn on_path(fs: FsView, exe: Seq<char>, dirs: Seq<Seq<char>>) -> bool {
    exists|i: int| 0 <= i < dirs.len() && fs.is_file(join(#[trigger] dirs[i], exe))
}

/// Whether the program `exe` is found in one of the directories `dirs` of
/// the search path.
pub fn is_executable_on_path(fs: &FsView, exe: &str, dirs: &Vec<String>) -> (r: bool)
    ensures
        r == on_path(*fs, exe@, str_views(dirs@)),
{
    let mut i: usize = 0;
    while i < dirs.len()
        invariant
            i <= dirs@.len(),
            forall|j: int| 0 <= j < i ==> !fs.is_file(join(#[trigger] str_views(dirs@)[j], exe@)),
        decreases dirs.len() - i,
    {
        if fs.is_file_exec(path_join(dirs[i].as_str(), exe).as_str()) {
            assert(fs.is_file(join(str_views(dirs@)[i as int], exe@)));
            return true;
        }
        i = i + 1;
    }
    false
}

/// The fewest inotify watches that the doctor deems enough.
pub const MIN_INOTIFY_WATCHES: u64 = 524288;

/// The value of a decimal numeral.
pub open spec fn numeral_value(ds: Seq<char>) -> nat
    decreases ds.len(),
{
    if ds.len() == 0 {
        0
    } else {
        numeral_value(ds.drop_last()) * 10 + ((ds.last() as u32) - ('0' as u32)) as nat
    }
}

/// Whether every character of `ds` is a decimal digit.
pub open spec fn all_digits(ds: Seq<char>) -> bool {
    forall|i: int| 0 <= i < ds.len() ==> '0' <= #[trigger] ds[i] <= '9'
}

/// `u64::from_str`: an optional `+`, then one digit or more, the value
/// fitting in a `u64`.
pub open spec fn parsed_u64(s: Seq<char>) -> Option<u64> {
    let ds = if s.len() > 0 && s[0] == '+' { s.drop_first() } else { s };
    if ds.len() > 0 && all_digits(ds) && numeral_value(ds) <= u64::MAX {
        Some(numeral_value(ds) as u64)
    } else {
        None
    }
}

/// `s.parse::<u64>().ok()`.
pub fn parse_u64(s: &str) -> (r: Option<u64>)
    ensures
        r == parsed_u64(s@),
{
    let v = to_chars(s);
    let start: usize = if v.len() > 0 && v[0] == '+' { 1 } else { 0 };
    let ghost ds = if s@.len() > 0 && s@[0] == '+' { s@.drop_first() } else { s@ };
    assert(v@.skip(start as int) =~= ds);
    if start >= v.len() {
        return None;
    }
    let mut acc: u64 = 0;
    let mut i: usize = start;
    assert(v@.subrange(start as int, start as int) =~= Seq::<char>::empty());
    while i < v.len()
        invariant
            start <= i <= v.len(),
            start < v.len(),
            v@ == s@,
            ds == v@.skip(start as int),
            ds == (if s@.len() > 0 && s@[0] == '+' { s@.drop_first() } else { s@ }),
            all_digits(v@.subrange(start as int, i as int)),
            acc as nat == numeral_value(v@.subrange(start as int, i as int)),
        decreases v.len() - i,
    {
        let c = v[i];
        let ghost pre = v@.subrange(start as int, i as int);
        let ghost next = v@.subrange(start as int, i + 1);
        assert(next.drop_last() =~= pre);
        assert(next.last() == c);
        if !('0' <= c && c <= '9') {
            assert(!all_digits(ds)) by {
                assert(ds[i - start] == c);
            }
            return None;
        }
        let d = (c as u32 - '0' as u32) as u64;
        let step = match acc.checked_mul(10) {
            Some(x) => x.checked_add(d),
            None => None,
        };
        match step {
            Some(x) => {
                acc = x;
            },
            None => {
                proof {
                    assert(numeral_value(next) == acc * 10 + d);
                    assert(next =~= ds.subrange(0, i - start + 1));
                    if all_digits(ds) {
                        lemma_numeral_prefix(ds, i - start + 1);
                    }
                }
                return None;
            },
        }
        i = i + 1;
    }
    assert(v@.subrange(start as int, v.len() as int) =~= ds);
    Some(acc)
}

/// A numeral is at least as large as any of its prefixes.
proof fn lemma_numeral_prefix(ds: Seq<char>, n: int)
    requires
        0 <= n <= ds.len(),
        all_digits(ds),
    ensures
        numeral_value(ds.subrange(0, n)) <= numeral_value(ds),
    decreases ds.len() - n,
{
    if n < ds.len() {
        lemma_numeral_prefix(ds, n + 1);
        let p = ds.subrange(0, n + 1);
        assert(p.drop_last() =~= ds.subrange(0, n));
        assert('0' <= p.last() <= '9') by {
            assert(p.last() == ds[n]);
        }
    } else {
        assert(ds.subrange(0, n) =~= ds);
    }
}

/// The inotify watch limit that `/proc/sys/fs/inotify/max_user_watches`
/// holds: its trimmed text as a number, 0 where it is none.
pub fn inotify_watches(text: &str) -> (r: u64)
    ensures
        r == match parsed_u64(crate::text::trim(text@)) {
            Some(n) => n,
            None => 0,
        },
{
    let t = crate::text::trim_exec(&to_chars(text));
    match parse_u64(crate::text::from_chars(&t).as_str()) {
        Some(n) => n,
        None => 0,
    }
}

/// Whether the daemon's socket may be used by its owner only (mode 0600).
pub fn socket_mode_ok(mode: u32) -> (r: bool)
    ensures
        r == (mode & 0o777 == 0o600),
{
    mode & 0o777 == 0o600
}

/// The doctor's last line, after `issues` problems.
pub open spec fn summary_text(issues: nat) -> Seq<char> {
    if issues == 0 {
        "All checks passed."@
    } else {
        "Found "@ + crate::text::dec(issues) + " issue(s)."@
    }
}

/// The doctor's last line, after `issues` problems.
pub fn doctor_summary(issues: u32) -> (r: String)
    ensures
        r@ == summary_text(issues as nat),
{
    if issues == 0 {
        return "All checks passed.".to_owned();
    }
    let mut v: Vec<char> = Vec::new();
    crate::text::push_str(&mut v, "Found ");
    crate::text::push_decimal(&mut v, issues as u64);
    crate::text::push_str(&mut v, " issue(s).");
    crate::text::from_chars(&v)
}

/// The ecosystems that the setup wizard of `init` offers, in order.
pub const INIT_CHOICES: [&'static str; 8] = [
    "JavaScript / TypeScript (npm, pnpm, yarn, bun)",
    "Flutter / Dart (pubspec.yaml)",
    "PHP (Composer)",
    "Python (uv, pip, poetry)",
    "Go (go.mod / vendor)",
    "Rust (Cargo / vendor)",
    "Java / Kotlin (JVM)",
    "Custom target directory",
];

/// The ecosystem of a choice of `init`; npm for any other text.
pub open spec fn init_ecosystem(choice: Seq<char>) -> Ecosystem {
    if choice == "Custom target directory"@ {
        Ecosystem::Custom
    } else if choice == "Flutter / Dart (pubspec.yaml)"@ {
        Ecosystem::Dart
    } else if choice == "PHP (Composer)"@ {
        Ecosystem::Composer
    } else if choice == "Python (uv, pip, poetry)"@ {
        Ecosystem::Python
    } else if choice == "Go (go.mod / vendor)"@ {
        Ecosystem::Go
    } else if choice == "Rust (Cargo / vendor)"@ {
        Ecosystem::Cargo
    } else if choice == "Java / Kotlin (JVM)"@ {
        Ecosystem::Jvm
    } else {
        Ecosystem::Npm
    }
}

/// The ecosystem of a choice of `init`; a custom link also asks for its
/// target directory.
pub fn init_choice_ecosystem(choice: &str) -> (r: Ecosystem)
    ensures
        r == init_ecosystem(choice@),
{
    if str_eq(choice, "Custom target directory") {
        Ecosystem::Custom
    } else if str_eq(choice, "Flutter / Dart (pubspec.yaml)") {
        Ecosystem::Dart
    } else if str_eq(choice, "PHP (Composer)") {
        Ecosystem::Composer
    } else if str_eq(choice, "Python (uv, pip, poetry)") {
        Ecosystem::Python
    } else if str_eq(choice, "Go (go.mod / vendor)") {
        Ecosystem::Go
    } else if str_eq(choice, "Rust (Cargo / vendor)") {
        Ecosystem::Cargo
    } else if str_eq(choice, "Java / Kotlin (JVM)") {
        Ecosystem::Jvm
    } else {
        Ecosystem::Npm
    }
}

/// Reading back what `Display` writes of a number gives the number.
pub proof fn lemma_parse_decimal(n: u64)
    ensures
        parsed_u64(crate::text::dec(n as nat)) == Some(n),
{
    lemma_dec_digits(n as nat);
}

proof fn lemma_digit_value(d: int)
    requires
        0 <= d < 10,
    ensures
        ((crate::text::digit_char(d) as u32) - ('0' as u32)) as nat == d,
        '0' <= crate::text::digit_char(d) <= '9',
{
    assert(('0' as u32) == 48);
    if d == 0 {
        assert(('0' as u32) == 48);
    } else if d == 1 {
        assert(('1' as u32) == 49);
    } else if d == 2 {
        assert(('2' as u32) == 50);
    } else if d == 3 {
        assert(('3' as u32) == 51);
    } else if d == 4 {
        assert(('4' as u32) == 52);
    } else if d == 5 {
        assert(('5' as u32) == 53);
    } else if d == 6 {
        assert(('6' as u32) == 54);
    } else if d == 7 {
        assert(('7' as u32) == 55);
    } else if d == 8 {
        assert(('8' as u32) == 56);
    } else {
        assert(('9' as u32) == 57);
    }
}

proof fn lemma_dec_digits(n: nat)
    ensures
        all_digits(crate::text::dec(n)),
        numeral_value(crate::text::dec(n)) == n,
        crate::text::dec(n).len() > 0,
        crate::text::dec(n)[0] != '+',
    decreases n,
{
    let d = crate::text::dec(n);
    if n < 10 {
        lemma_digit_value(n as int);
        assert(d.drop_last() =~= Seq::<char>::empty());
        assert(numeral_value(d.drop_last()) == 0);
        assert(d.last() == crate::text::digit_char(n as int));
    } else {
        lemma_digit_value((n % 10) as int);
        assert(n == (n / 10) * 10 + n % 10) by (nonlinear_arith);
        lemma_dec_digits(n / 10);
        let p = crate::text::dec(n / 10);
        assert(d.drop_last() =~= p);
        assert(d.last() == crate::text::digit_char((n % 10) as int));
        assert(numeral_value(d) == numeral_value(p) * 10 + ((d.last() as u32) - ('0' as u32)) as nat);
        assert forall|i: int| 0 <= i < d.len() implies '0' <= #[trigger] d[i] <= '9' by {
            if i < p.len() {
                assert(d[i] == p[i]);
            }
        }
    }
}

/// The padding after a column of `width` that holds `len` bytes: up to the
/// width, and one space at least.
pub open spec fn column_pad(len: nat, width: nat) -> nat {
    if len < width {
        (width - len) as nat
    } else {
        1
    }
}

/// `n` spaces.
pub open spec fn spaces(n: nat) -> Seq<char> {
    Seq::new(n, |i: int| ' ')
}

/// A command of the welcome guide: indented, its name padded to 13 bytes and
/// its arguments to 24, then what it does.
pub open spec fn command_text(
    name: Seq<char>,
    name_bytes: nat,
    args: Seq<char>,
    args_bytes: nat,
    desc: Seq<char>,
) -> Seq<char> {
    "    "@ + name + spaces(column_pad(name_bytes, 13)) + args + spaces(column_pad(args_bytes, 24)) + desc
}

fn push_spaces(out: &mut Vec<char>, n: usize)
    ensures
        final(out)@ == old(out)@ + spaces(n as nat),
{
    let ghost start = out@;
    let mut i: usize = 0;
    while i < n
        invariant
            i <= n,
            out@ == start + spaces(i as nat),
        decreases n - i,
    {
        out.push(' ');
        i = i + 1;
        assert(out@ =~= start + spaces(i as nat));
    }
}

/// What `str::len` gives: the number of bytes of `s`.
pub open spec fn byte_len(s: &str) -> nat {
    (s.spec_bytes().len() as usize) as nat
}

/// The line of the welcome guide for command `name`.
pub fn command_line(name: &str, args: &str, desc: &str) -> (r: String)
    ensures
        r@ == command_text(name@, byte_len(name), args@, byte_len(args), desc@),
{
    let name_pad: usize = if name.len() < 13 { 13 - name.len() } else { 1 };
    let args_pad: usize = if args.len() < 24 { 24 - args.len() } else { 1 };
    let mut v: Vec<char> = Vec::new();
    crate::text::push_str(&mut v, "    ");
    crate::text::push_str(&mut v, name);
    push_spaces(&mut v, name_pad);
    crate::text::push_str(&mut v, args);
    push_spaces(&mut v, args_pad);
    crate::text::push_str(&mut v, desc);
    assert(v@ =~= command_text(name@, byte_len(name), args@, byte_len(args), desc@));
    crate::text::from_chars(&v)
}

/// The package names of `links`, in order.
pub open spec fn names_of(links: Seq<LinkEntry>) -> Seq<Seq<char>> {
    links.map_values(|l: LinkEntry| l.package_name@)
}

/// The positions that `indices_of` gives lie below `n`.
pub proof fn lemma_indices_range(names: Seq<Seq<char>>, key: Seq<char>, n: int)
    ensures
        forall|j: int| 0 <= j < indices_of(names, key, n).len() ==> 0 <= #[trigger] indices_of(names, key, n)[j] < n,
    decreases n,
{
    if n > 0 {
        lemma_indices_range(names, key, n - 1);
        let prev = indices_of(names, key, n - 1);
        if names[n - 1] == key {
            assert forall|j: int| 0 <= j < indices_of(names, key, n).len() implies 0 <= #[trigger] indices_of(
                names,
                key,
                n,
            )[j] < n by {
                if j < prev.len() {
                    assert(indices_of(names, key, n)[j] == prev[j]);
                }
            }
        }
    }
}

/// The tree branch in front of a consumer: the last one closes the tree.
pub open spec fn branch_text(last: bool) -> Seq<char> {
    if last {
        "└──"@
    } else {
        "├──"@
    }
}

/// A consumer of a package in the list of links: where it is synced, how,
/// how many files, and its sync state.
pub open spec fn list_member(l: LinkEntryView, last: bool) -> Seq<char> {
    "     "@ + branch_text(last) + " 📂 "@ + l.consumer_root + " → "@ + l.sync_target + "  ("@ + l.strategy
        + ", "@ + crate::text::dec(l.file_count as nat) + " files) ["@ + status_text(l.last_sync_status) + "]"@
}

/// The block of one package in the list: its name, the ecosystem and source
/// of its first link, each of its consumers, then an empty line.
pub open spec fn list_block(links: Seq<LinkEntryView>, name: Seq<char>, idx: Seq<int>) -> Seq<Seq<char>> {
    let first = links[idx[0]];
    seq![
        "  📦 "@ + name + " "@ + eco_badge(first.ecosystem) + " ("@ + consumers_text(idx.len()) + ")"@,
        "     Source: "@ + first.source_path,
    ] + Seq::new(idx.len(), |k: int| list_member(links[idx[k]], k + 1 == idx.len())) + seq![""@]
}

/// The text of `linkd list` for `links`, grouped as `g`: a hint when there
/// are none, else a header with their number and one block per package.
pub open spec fn list_text(links: Seq<LinkEntryView>, g: Seq<(Seq<char>, Seq<int>)>) -> Seq<Seq<char>> {
    if links.len() == 0 {
        seq![
            ""@,
            "  No active synchronized links."@,
            "  Use: linkd link <source> [consumer]"@,
            "  Or:  linkd use <package>"@,
            ""@,
        ]
    } else {
        seq![""@, "  🔗 Active Synchronized Links ("@ + crate::text::dec(links.len()) + ") — hierarchical view"@, ""@]
            + Seq::new(g.len(), |k: int| list_block(links, g[k].0, g[k].1)).flatten()
    }
}

fn list_member_text(l: &LinkEntry, last: bool) -> (r: String)
    ensures
        r@ == list_member(l@, last),
{
    let mut v: Vec<char> = Vec::new();
    crate::text::push_str(&mut v, "     ");
    crate::text::push_str(&mut v, if last { "└──" } else { "├──" });
    crate::text::push_str(&mut v, " 📂 ");
    crate::text::push_str(&mut v, l.consumer_root.as_str());
    crate::text::push_str(&mut v, " → ");
    crate::text::push_str(&mut v, l.sync_target.as_str());
    crate::text::push_str(&mut v, "  (");
    crate::text::push_str(&mut v, l.strategy.as_str());
    crate::text::push_str(&mut v, ", ");
    crate::text::push_decimal(&mut v, l.file_count as u64);
    crate::text::push_str(&mut v, " files) [");
    crate::text::push_str(&mut v, status_label(l.last_sync_status));
    crate::text::push_str(&mut v, "]");
    crate::text::from_chars(&v)
}

fn push_list_block(r: &mut Vec<String>, links: &Vec<LinkEntry>, name: &String, idx: &Vec<usize>)
    requires
        idx@.len() > 0,
        forall|k: int| 0 <= k < idx@.len() ==> idx@[k] < links@.len(),
    ensures
        str_views(final(r)@) == str_views(old(r)@) + list_block(
            crate::monitor::link_views(links@),
            name@,
            idx@.map_values(|i: usize| i as int),
        ),
{
    let ghost lv = crate::monitor::link_views(links@);
    let ghost iv = idx@.map_values(|i: usize| i as int);
    let ghost start = str_views(r@);
    let first = &links[idx[0]];
    let mut h: Vec<char> = Vec::new();
    crate::text::push_str(&mut h, "  📦 ");
    crate::text::push_str(&mut h, name.as_str());
    crate::text::push_str(&mut h, " ");
    crate::text::push_str(&mut h, eco_label(first.ecosystem));
    crate::text::push_str(&mut h, " (");
    let c = consumer_label(idx.len() as u64);
    crate::text::push_str(&mut h, c.as_str());
    crate::text::push_str(&mut h, ")");
    r.push(crate::text::from_chars(&h));
    let mut src: Vec<char> = Vec::new();
    crate::text::push_str(&mut src, "     Source: ");
    crate::text::push_str(&mut src, first.source_path.as_str());
    r.push(crate::text::from_chars(&src));
    assert(str_views(r@) =~= start + seq![
        "  📦 "@ + name@ + " "@ + eco_badge(lv[iv[0]].ecosystem) + " ("@ + consumers_text(iv.len()) + ")"@,
        "     Source: "@ + lv[iv[0]].source_path,
    ]);
    let ghost head = str_views(r@);
    let mut k: usize = 0;
    while k < idx.len()
        invariant
            k <= idx@.len(),
            lv == crate::monitor::link_views(links@),
            iv == idx@.map_values(|i: usize| i as int),
            forall|m: int| 0 <= m < idx@.len() ==> idx@[m] < links@.len(),
            str_views(r@) =~= head + Seq::new(k as nat, |m: int| list_member(lv[iv[m]], m + 1 == iv.len())),
        decreases idx.len() - k,
    {
        let line = list_member_text(&links[idx[k]], k + 1 == idx.len());
        let ghost prev = str_views(r@);
        r.push(line);
        assert(str_views(r@) =~= prev.push(line@));
        k = k + 1;
    }
    let ghost members = str_views(r@);
    r.push("".to_owned());
    assert(iv.len() == idx@.len());
    assert(str_views(r@) =~= members.push(""@));
    assert(str_views(r@) =~= start + list_block(lv, name@, iv));
}

/// The lines of `linkd list`: the links grouped by package, the packages in
/// increasing order of names, each with its consumers in the order of the
/// links.
pub fn list_lines(links: &Vec<LinkEntry>) -> (r: Vec<String>)
    ensures
        exists|g: Seq<(Seq<char>, Seq<int>)>|
            groups_of(g, names_of(links@), links@.len() as int) && str_views(r@) == list_text(
                crate::monitor::link_views(links@),
                g,
            ),
{
    let groups = group_by_package(links);
    let ghost g = group_views(groups@);
    let ghost lv = crate::monitor::link_views(links@);
    let ghost names = names_of(links@);
    let mut r: Vec<String> = Vec::new();
    if links.len() == 0 {
        r.push("".to_owned());
        r.push("  No active synchronized links.".to_owned());
        r.push("  Use: linkd link <source> [consumer]".to_owned());
        r.push("  Or:  linkd use <package>".to_owned());
        r.push("".to_owned());
        assert(str_views(r@) =~= list_text(lv, g));
        assert(groups_of(g, names_of(links@), links@.len() as int) && str_views(r@) == list_text(lv, g));
        return r;
    }
    r.push("".to_owned());
    let mut h: Vec<char> = Vec::new();
    crate::text::push_str(&mut h, "  🔗 Active Synchronized Links (");
    crate::text::push_decimal(&mut h, links.len() as u64);
    crate::text::push_str(&mut h, ") — hierarchical view");
    r.push(crate::text::from_chars(&h));
    r.push("".to_owned());
    let ghost head = str_views(r@);
    assert(head =~= seq![""@, "  🔗 Active Synchronized Links ("@ + crate::text::dec(links.len() as nat) + ") — hierarchical view"@, ""@]);
    assert(Seq::new(0, |k: int| list_block(lv, g[k].0, g[k].1)) =~= Seq::<Seq<Seq<char>>>::empty());
    let mut i: usize = 0;
    while i < groups.len()
        invariant
            i <= groups@.len(),
            g == group_views(groups@),
            lv == crate::monitor::link_views(links@),
            names == names_of(links@),
            groups_of(g, names, links@.len() as int),
            str_views(r@) == head + Seq::new(i as nat, |k: int| list_block(lv, g[k].0, g[k].1)).flatten(),
        decreases groups.len() - i,
    {
        proof {
            lemma_indices_range(names, g[i as int].0, links@.len() as int);
            assert(g[i as int].1 == groups@[i as int].1@.map_values(|j: usize| j as int));
            assert forall|k: int| 0 <= k < groups@[i as int].1@.len() implies groups@[i as int].1@[k] < links@.len() by {
                assert(g[i as int].1[k] == groups@[i as int].1@[k] as int);
            }
        }
        let ghost before = str_views(r@);
        push_list_block(&mut r, links, &groups[i].0, &groups[i].1);
        proof {
            let blocks = Seq::new(i as nat, |k: int| list_block(lv, g[k].0, g[k].1));
            let next = Seq::new((i + 1) as nat, |k: int| list_block(lv, g[k].0, g[k].1));
            assert(next =~= blocks.push(list_block(lv, g[i as int].0, g[i as int].1)));
            blocks.lemma_flatten_push(list_block(lv, g[i as int].0, g[i as int].1));
            assert(g[i as int].0 == groups@[i as int].0@);
        }
        i = i + 1;
    }
    assert(Seq::new(groups@.len(), |k: int| list_block(lv, g[k].0, g[k].1)) =~= Seq::new(
        g.len(),
        |k: int| list_block(lv, g[k].0, g[k].1),
    ));
    assert(groups_of(g, names_of(links@), links@.len() as int) && str_views(r@) == list_text(lv, g));
    r
}

/// The number of problems of the first `n` of `links`.
pub open spec fn link_issue_total(fs: FsView, links: Seq<LinkEntry>, roots: Seq<Seq<char>>, n: int) -> nat
    decreases n,
{
    if n <= 0 {
        0
    } else {
        link_issue_total(fs, links, roots, n - 1) + issues_of(fs, links[n - 1], roots).len()
    }
}

/// The doctor's count of problems: running in CI, each problem of each
/// registered link, a daemon socket (of mode `socket_mode`, where there is
/// one) that others may use, and a Composer project without `composer` on
/// the search path. The daemon not running and a low inotify limit are
/// reported but not counted.
pub open spec fn doctor_issue_total(
    ci: bool,
    fs: FsView,
    links: Seq<LinkEntry>,
    roots: Seq<Seq<char>>,
    socket_mode: Option<u32>,
    has_composer_json: bool,
    composer_on_path: bool,
) -> nat {
    (if ci { 1nat } else { 0nat }) + link_issue_total(fs, links, roots, links.len() as int) + (match socket_mode {
        Some(m) => if m & 0o777 == 0o600 { 0nat } else { 1nat },
        None => 0nat,
    }) + (if has_composer_json && !composer_on_path { 1nat } else { 0nat })
}

proof fn lemma_link_issue_total_bound(fs: FsView, links: Seq<LinkEntry>, roots: Seq<Seq<char>>, n: int)
    requires
        0 <= n <= links.len(),
    ensures
        link_issue_total(fs, links, roots, n) <= 3 * n,
    decreases n,
{
    if n > 0 {
        lemma_link_issue_total_bound(fs, links, roots, n - 1);
    }
}

/// Counts the doctor's problems (see `doctor_issue_total`).
pub fn doctor_issue_count(
    ci: bool,
    fs: &FsView,
    links: &Vec<LinkEntry>,
    global_roots: &Vec<String>,
    socket_mode: Option<u32>,
    has_composer_json: bool,
    composer_on_path: bool,
) -> (r: u32)
    requires
        3 * links@.len() + 3 <= u32::MAX,
    ensures
        r == doctor_issue_total(
            ci,
            *fs,
            links@,
            str_views(global_roots@),
            socket_mode,
            has_composer_json,
            composer_on_path,
        ),
{
    let ghost roots = str_views(global_roots@);
    let mut n: u32 = if ci { 1 } else { 0 };
    let mut i: usize = 0;
    while i < links.len()
        invariant
            i <= links@.len(),
            3 * links@.len() + 3 <= u32::MAX,
            roots == str_views(global_roots@),
            n == (if ci { 1nat } else { 0nat }) + link_issue_total(*fs, links@, roots, i as int),
        decreases links.len() - i,
    {
        proof {
            lemma_link_issue_total_bound(*fs, links@, roots, i as int);
        }
        let found = link_issues(fs, &links[i], global_roots);
        assert(found@.len() <= 3);
        n = n + found.len() as u32;
        i = i + 1;
    }
    proof {
        lemma_link_issue_total_bound(*fs, links@, roots, links@.len() as int);
    }
    match socket_mode {
        Some(m) => {
            if !socket_mode_ok(m) {
                n = n + 1;
            }
        },
        None => {},
    }
    if has_composer_json && !composer_on_path {
        n = n + 1;
    }
    n
}

/// What unlinking `target` comes to: where the daemon runs (`daemon` is
/// its answer), that answer; else whether a link of that name was removed
/// from the registry (`removed`).
pub open spec fn unlink_outcome(
    target: Seq<char>,
    daemon: Option<Result<(), ErrView>>,
    removed: bool,
) -> Result<Seq<char>, Seq<char>> {
    match daemon {
        Some(Ok(_)) => Ok("✓ Unlinked "@ + target),
        Some(Err(e)) => Err(crate::screen::err_text(e)),
        None => if removed {
            Ok("✓ Unlinked "@ + target)
        } else {
            Err("no link found for "@ + target)
        },
    }
}

/// The line that `linkd unlink target` prints, or its error message (see
/// `unlink_outcome`).
pub fn unlink_result(target: &str, daemon: Option<LinkdResult<()>>, removed: bool) -> (r: Result<String, String>)
    ensures
        match r {
            Ok(m) => unlink_outcome(target@, match daemon { Some(d) => Some(crate::validate::res_unit(d)), None => None }, removed) == Ok::<Seq<char>, Seq<char>>(m@),
            Err(m) => unlink_outcome(target@, match daemon { Some(d) => Some(crate::validate::res_unit(d)), None => None }, removed) == Err::<Seq<char>, Seq<char>>(m@),
        },
{
    let mut v: Vec<char> = Vec::new();
    crate::text::push_str(&mut v, "✓ Unlinked ");
    crate::text::push_str(&mut v, target);
    let ok = crate::text::from_chars(&v);
    match daemon {
        Some(Ok(_)) => Ok(ok),
        Some(Err(e)) => Err(crate::screen::error_message(&e)),
        None => if removed {
            Ok(ok)
        } else {
            let mut w: Vec<char> = Vec::new();
            crate::text::push_str(&mut w, "no link found for ");
            crate::text::push_str(&mut w, target);
            Err(crate::text::from_chars(&w))
        },
    }
}

} // verus!

