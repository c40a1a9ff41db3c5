//! Go modules: synced into the consumer's `vendor/` tree.

use vstd::prelude::*;
use crate::fs::{markers_with_fallback, read_text, read_text_exec, retain_with_parent, str_views, FsView};
use crate::manifest::{opt_str, read_name, read_name_safe, LineRule, Rule};
use crate::model::{
    project_local, project_local_target, res_str, some_or_other, name_or_other_exec, ErrView, LinkdError,
    LinkdResult, ResolvedSyncTarget,
};
use crate::paths::{components, file_name, file_name_exec, join, lemma_below_refl, lemma_below_trans, lemma_join_below, path_join, path_starts_with};
use crate::text::{from_chars, to_chars};

verus! {

/// Hint shown after a Go module was synced.
pub const GO_HINT: &'static str = "Go module files synced to vendor. Run with `go build -mod=vendor` or use `go work` for multi-module setup.";

/// A `go.mod` in the source, or a `go.mod` or `go.work` in the consumer.
pub fn detect_go(fs: &FsView, source: &str, consumer: &str) -> (r: bool)
    ensures
        r == (fs.is_file(join(source@, "go.mod"@)) || fs.is_file(join(consumer@, "go.mod"@))
            || fs.is_file(join(consumer@, "go.work"@))),
{
    let source_is_go = fs.is_file_exec(path_join(source, "go.mod").as_str());
    let consumer_is_go = fs.is_file_exec(path_join(consumer, "go.mod").as_str())
        || fs.is_file_exec(path_join(consumer, "go.work").as_str());
    source_is_go || consumer_is_go
}

/// What reading the package name of `source` gives.
pub open spec fn name_result(fs: FsView, source: Seq<char>) -> Result<Seq<char>, ErrView> {
    let p = join(source, "go.mod"@);
    if !fs.is_file(p) {
        some_or_other(file_name(source), "missing go.mod and cannot infer module name"@)
    } else {
        match read_text(fs, p) {
            Err(m) => Err(ErrView::Io(p, m)),
            Ok(t) => some_or_other(
                match read_name(t, LineRule::GoModule) {
                    Some(n) => Some(n),
                    None => file_name(source),
                },
                "invalid go.mod without module declaration"@,
            ),
        }
    }
}

/// The module path: the `module` line of `go.mod`, else the name of the
/// source directory.
pub fn parse_module_name(fs: &FsView, source: &str) -> (r: LinkdResult<String>)
    ensures
        res_str(r) == name_result(*fs, source@),
{
    let p = path_join(source, "go.mod");
    if !fs.is_file_exec(p.as_str()) {
        return name_or_other_exec(
            file_name_exec(source),
            "missing go.mod and cannot infer module name",
        );
    }
    match read_text_exec(fs, p.as_str()) {
        Err(m) => Err(LinkdError::Io { path: p, message: m }),
        Ok(t) => {
            let name = match read_name_safe(t.as_str(), &Rule::GoModule) {
                Some(n) => Some(n),
                None => file_name_exec(source),
            };
            name_or_other_exec(name, "invalid go.mod without module declaration")
        },
    }
}

/// Files whose change shows that the Go toolchain finished in the consumer.
pub open spec fn marker_candidates(consumer: Seq<char>) -> Seq<Seq<char>> {
    seq![
        join(consumer, "go.sum"@),
        join(consumer, "go.work.sum"@),
        join(consumer, "go.work"@),
        join(join(consumer, "vendor"@), "modules.txt"@),
    ]
}

/// The completion markers of `consumer`: the candidates whose directory
/// exists, or the fallback when none does.
pub open spec fn markers(fs: FsView, consumer: Seq<char>) -> Seq<Seq<char>> {
    markers_with_fallback(fs, marker_candidates(consumer), join(consumer, "go.mod"@))
}

/// The markers whose directory exists, else `go.mod`.
pub fn completion_markers(fs: &FsView, consumer_root: &str) -> (r: Vec<String>)
    ensures
        str_views(r@) == markers(*fs, consumer_root@),
{
    let vendor = path_join(consumer_root, "vendor");
    let mut cands: Vec<String> = Vec::new();
    cands.push(path_join(consumer_root, "go.sum"));
    cands.push(path_join(consumer_root, "go.work.sum"));
    cands.push(path_join(consumer_root, "go.work"));
    cands.push(path_join(vendor.as_str(), "modules.txt"));
    assert(str_views(cands@) =~= marker_candidates(consumer_root@));
    retain_with_parent(fs, cands, path_join(consumer_root, "go.mod"))
}

/// The hint after a sync from `source`.
pub open spec fn hint(fs: FsView, source: Seq<char>) -> Option<Seq<char>> {
    if fs.has_path(join(source, "go.mod"@)) {
        Some(GO_HINT@)
    } else {
        None
    }
}

/// A hint when the source is a Go module (`go.mod` exists).
pub fn post_sync_hint(fs: &FsView, source: &str, consumer: &str) -> (r: Option<String>)
    ensures
        opt_str(r) == hint(*fs, source@),
{
    if fs.exists_exec(path_join(source, "go.mod").as_str()) {
        Some(GO_HINT.to_owned())
    } else {
        None
    }
}

/// `base` joined with each non-empty `/`-separated part of the rest of a
/// module path, `cur` being the part read so far.
pub open spec fn join_parts_from(base: Seq<char>, s: Seq<char>, cur: Seq<char>) -> Seq<char>
    decreases s.len(),
{
    if s.len() == 0 {
        if cur.len() > 0 {
            join(base, cur)
        } else {
            base
        }
    } else if s[0] == '/' {
        join_parts_from(
            if cur.len() > 0 {
                join(base, cur)
            } else {
                base
            },
            s.drop_first(),
            seq![],
        )
    } else {
        join_parts_from(base, s.drop_first(), cur.push(s[0]))
    }
}

/// `base` joined with each non-empty `/`-separated part of `module`.
pub open spec fn join_parts(base: Seq<char>, module: Seq<char>) -> Seq<char> {
    join_parts_from(base, module, seq![])
}

proof fn lemma_join_parts_from_below(base: Seq<char>, s: Seq<char>, cur: Seq<char>)
    requires
        !(cur.len() > 0 && cur[0] == '/'),
    ensures
        path_starts_with(join_parts_from(base, s, cur), base),
    decreases s.len(),
{
    let next = if cur.len() > 0 { join(base, cur) } else { base };
    if cur.len() > 0 {
        lemma_join_below(base, cur);
    } else {
        lemma_below_refl(base);
    }
    if s.len() > 0 {
        if s[0] == '/' {
            lemma_join_parts_from_below(next, s.drop_first(), seq![]);
            lemma_below_trans(join_parts_from(base, s, cur), next, base);
        } else {
            let c2 = cur.push(s[0]);
            assert(c2[0] == if cur.len() > 0 { cur[0] } else { s[0] });
            lemma_join_parts_from_below(base, s.drop_first(), c2);
        }
    }
}

/// The parts of a module path are joined below `base`, whatever they hold.
pub proof fn lemma_join_parts_below(base: Seq<char>, module: Seq<char>)
    ensures
        path_starts_with(join_parts(base, module), base),
{
    lemma_join_parts_from_below(base, module, seq![]);
}

/// `consumer_root/vendor/<part>/<part>/…` for the parts of the module path.
pub fn resolve_go_target(consumer_root: &str, module_name: &str) -> (r: LinkdResult<ResolvedSyncTarget>)
    ensures
        r matches Ok(t) && project_local(join_parts(join(consumer_root@, "vendor"@), module_name@), t),
{
    let m = to_chars(module_name);
    let mut target = path_join(consumer_root, "vendor");
    let ghost base0 = target@;
    let mut cur: Vec<char> = Vec::new();
    let mut i: usize = 0;
    assert(m@.skip(0) =~= m@);
    assert(cur@ =~= Seq::<char>::empty());
    while i < m.len()
        invariant
            i <= m.len(),
            m@ == module_name@,
            join_parts(base0, m@) == join_parts_from(target@, m@.skip(i as int), cur@),
        decreases m.len() - i,
    {
        let ghost rest = m@.skip(i as int);
        assert(rest[0] == m@[i as int]);
        assert(rest.drop_first() =~= m@.skip(i + 1));
        if m[i] == '/' {
            if cur.len() > 0 {
                let part = from_chars(&cur);
                target = path_join(target.as_str(), part.as_str());
            }
            cur = Vec::new();
            assert(cur@ =~= Seq::<char>::empty());
        } else {
            cur.push(m[i]);
        }
        i = i + 1;
    }
    assert(m@.skip(i as int) =~= Seq::<char>::empty());
    if cur.len() > 0 {
        let part = from_chars(&cur);
        target = path_join(target.as_str(), part.as_str());
    }
    Ok(project_local_target(target))
}

/// The completion markers of a consumer that exists are `go.sum`,
/// `go.work.sum` and `go.work`, then `vendor/modules.txt` when `vendor`
/// exists; of a consumer that does not exist, `go.mod` alone. This holds
/// of every view that, as a file system does, holds the directory of each
/// of its entries, for a consumer path with at least one component.
pub proof fn lemma_go_markers(fs: FsView, c: Seq<char>)
    requires
        fs.parents_present(),
        components(c).len() > 0,
    ensures
        fs.has_path(c) ==> markers(fs, c) == seq![join(c, "go.sum"@), join(c, "go.work.sum"@), join(c, "go.work"@)]
            + if fs.has_path(join(c, "vendor"@)) {
            seq![join(join(c, "vendor"@), "modules.txt"@)]
        } else {
            seq![]
        },
        !fs.has_path(c) ==> markers(fs, c) == seq![join(c, "go.mod"@)],
{
    reveal_strlit("vendor");
    assert(crate::paths::plain_name("vendor"@)) by {
        reveal_with_fuel(crate::paths::slash_free, 7);
        crate::paths::lemma_plain_name("vendor"@);
    }
    if fs.has_path(join(c, "vendor"@)) {
        crate::fs::lemma_parent_present(fs, c, "vendor"@);
    }
    reveal_strlit("go.sum");
    reveal_strlit("go.work.sum");
    assert(crate::paths::plain_name("go.work.sum"@)) by {
        reveal_with_fuel(crate::paths::slash_free, 12);
        crate::paths::lemma_plain_name("go.work.sum"@);
    }
    reveal_strlit("go.work");
    assert(crate::paths::plain_name("go.work"@)) by {
        reveal_with_fuel(crate::paths::slash_free, 8);
        crate::paths::lemma_plain_name("go.work"@);
    }
    reveal_strlit("modules.txt");
    assert(crate::paths::plain_name("go.sum"@)) by {
        reveal_with_fuel(crate::paths::slash_free, 7);
        crate::paths::lemma_plain_name("go.sum"@);
    }
    crate::fs::lemma_parent_of_join(fs, c, "go.sum"@);
    crate::fs::lemma_parent_of_join(fs, c, "go.work.sum"@);
    crate::fs::lemma_parent_of_join(fs, c, "go.work"@);
    assert(crate::paths::plain_name("modules.txt"@)) by {
        reveal_with_fuel(crate::paths::slash_free, 12);
        crate::paths::lemma_plain_name("modules.txt"@);
    }
    crate::fs::lemma_parent_of_join(fs, join(c, "vendor"@), "modules.txt"@);
    reveal_with_fuel(crate::fs::keep_with_parent, 5);
    let cands = marker_candidates(c);
    assert(cands.drop_first().drop_first().drop_first().drop_first() =~= Seq::<Seq<char>>::empty());
    assert(cands.drop_first()[0] == cands[1]);
    assert(cands.drop_first().drop_first()[0] == cands[2]);
    assert(cands.drop_first().drop_first().drop_first()[0] == cands[3]);
    if fs.has_path(c) {
        assert(crate::fs::keep_with_parent(fs, cands) =~= seq![join(c, "go.sum"@), join(c, "go.work.sum"@), join(c, "go.work"@)]
            + if fs.has_path(join(c, "vendor"@)) {
            seq![join(join(c, "vendor"@), "modules.txt"@)]
        } else {
            seq![]
        });
    } else {
        assert(crate::fs::keep_with_parent(fs, cands) =~= Seq::<Seq<char>>::empty());
    }
}

/// A Go module is named by the `module` line of its `go.mod`; without a
/// `go.mod`, or without such a line, by the name of its directory.
pub proof fn lemma_go_module_name(fs: FsView, s: Seq<char>)
    ensures
        fs.is_file(join(s, "go.mod"@)) ==> (read_text(fs, join(s, "go.mod"@)) matches Ok(t) ==> (read_name(
            t,
            LineRule::GoModule,
        ) matches Some(n) ==> name_result(fs, s) == Ok::<Seq<char>, ErrView>(n))),
        fs.is_file(join(s, "go.mod"@)) ==> (read_text(fs, join(s, "go.mod"@)) matches Ok(t) ==> (read_name(
            t,
            LineRule::GoModule,
        ) is None ==> (file_name(s) matches Some(d) ==> name_result(fs, s) == Ok::<Seq<char>, ErrView>(d)))),
        !fs.is_file(join(s, "go.mod"@)) ==> (file_name(s) matches Some(d) ==> name_result(fs, s) == Ok::<
            Seq<char>,
            ErrView,
        >(d)),
{
}

} // verus!
