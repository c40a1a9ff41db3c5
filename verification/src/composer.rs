//! PHP Composer packages: synced into `vendor/<vendor>/<package>`.

use vstd::prelude::*;
use crate::listing::{strictly_sorted_paths, list_files_with, sorted_paths, walked, ListRule};
use crate::fs::{markers_with_fallback, read_text, read_text_exec, retain_with_parent, str_views, FsView};
use crate::json::{json_name, json_string_member, member_view};
use crate::listing::{composer_excluded, composer_should_exclude, has_component_in};
use crate::manifest::opt_str;
use crate::model::{
    local_view, project_local_target, res_str, res_target, ErrView, LinkdError, LinkdResult,
    ResolvedSyncTarget, TargetView,
};
use crate::paths::{components, extension_exec, extension_of, file_name, file_name_exec, join, path_join};
use crate::text::{copy_range, find, find_exec, from_chars, to_chars};

verus! {

/// Hint shown when synced PHP classes may need a new autoloader.
pub const COMPOSER_HINT: &'static str = "New PHP classes may require: composer dump-autoload (in consumer project)";

/// Files whose change shows that Composer finished in the consumer.
pub open spec fn marker_candidates(consumer: Seq<char>) -> Seq<Seq<char>> {
    let vc = join(join(consumer, "vendor"@), "composer"@);
    seq![
        join(vc, "installed.json"@),
        join(consumer, "composer.lock"@),
        join(vc, "autoload_classmap.php"@),
        join(vc, "autoload_static.php"@),
    ]
}

/// The completion markers of `consumer`: the candidates whose directory
/// exists, or the fallback when none does.
pub open spec fn markers(fs: FsView, consumer: Seq<char>) -> Seq<Seq<char>> {
    markers_with_fallback(fs, marker_candidates(consumer), join(consumer, "composer.lock"@))
}

/// The markers whose directory exists, else `composer.lock`.
pub fn completion_markers(fs: &FsView, consumer_root: &str) -> (r: Vec<String>)
    ensures
        str_views(r@) == markers(*fs, consumer_root@),
{
    let vendor = path_join(consumer_root, "vendor");
    let vc = path_join(vendor.as_str(), "composer");
    let mut cands: Vec<String> = Vec::new();
    cands.push(path_join(vc.as_str(), "installed.json"));
    cands.push(path_join(consumer_root, "composer.lock"));
    cands.push(path_join(vc.as_str(), "autoload_classmap.php"));
    cands.push(path_join(vc.as_str(), "autoload_static.php"));
    assert(str_views(cands@) =~= marker_candidates(consumer_root@));
    retain_with_parent(fs, cands, path_join(consumer_root, "composer.lock"))
}

/// Whether a source file is PHP code that Composer would autoload: a `.php`
/// file outside `.git`, `node_modules`, `vendor` and `target`.
pub open spec fn autoloadable(p: Seq<char>) -> bool {
    !has_component_in(p, composer_excluded()) && (match file_name(p) {
        Some(n) => extension_of(n) == Some("php"@),
        None => false,
    })
}

/// Whether the walk of `source` in the view meets autoloadable PHP.
pub open spec fn has_php(fs: FsView, source: Seq<char>) -> bool {
    exists|i: int| 0 <= i < fs.len() && fs.file_below(i, source) && autoloadable(#[trigger] fs.path_at(i))
}

/// The hint after a Composer sync.
pub open spec fn composer_hint(fs: FsView, source: Seq<char>, consumer: Seq<char>) -> Option<Seq<char>> {
    if fs.has_path(join(consumer, "vendor"@)) && has_php(fs, source) {
        Some(COMPOSER_HINT@)
    } else {
        None
    }
}

/// A hint to rebuild the autoloader: when the consumer has `vendor/` and
/// the source holds autoloadable PHP files.
pub fn autoload_hint(fs: &FsView, source: &str, consumer: &str) -> (r: Option<String>)
    ensures
        opt_str(r) == composer_hint(*fs, source@, consumer@),
{
    if !fs.exists_exec(path_join(consumer, "vendor").as_str()) {
        return None;
    }
    let php = crate::text::lit("php");
    let mut i: usize = 0;
    while i < fs.entries.len()
        invariant
            i <= fs.entries.len(),
            php@ == "php"@,
            fs.has_path(join(consumer@, "vendor"@)),
            forall|j: int| 0 <= j < i ==> !(fs.file_below(j, source@) && autoloadable(#[trigger] fs.path_at(j))),
        decreases fs.entries.len() - i,
    {
        let p = fs.entries[i].path.as_str();
        if fs.file_below_exec(i, source) && !composer_should_exclude(p) {
            match file_name_exec(p) {
                Some(n) => {
                    match extension_exec(&to_chars(n.as_str())) {
                        Some(e) => {
                            if crate::text::chars_eq(&e, &php) {
                                assert(autoloadable(fs.path_at(i as int)));
                                return Some(COMPOSER_HINT.to_owned());
                            }
                        },
                        None => {},
                    }
                },
                None => {},
            }
        }
        i = i + 1;
    }
    None
}

/// The package name, given what the JSON reader found as the `name` member
/// of `composer.json`.
pub open spec fn name_from_member(m: Result<Option<Seq<char>>, Seq<char>>) -> Result<Seq<char>, ErrView> {
    match m {
        Ok(Some(n)) => Ok(n),
        Ok(None) => Err(ErrView::Other("composer.json missing name"@)),
        Err(e) => Err(ErrView::Other(e)),
    }
}

/// What reading the package name of `source` gives.
pub open spec fn name_result(fs: FsView, source: Seq<char>) -> Result<Seq<char>, ErrView> {
    let p = join(source, "composer.json"@);
    match read_text(fs, p) {
        Err(m) => Err(ErrView::Io(p, m)),
        Ok(t) => name_from_member(json_string_member(t, "name"@)),
    }
}

/// The package name from what serde_json read of `composer.json`.
pub fn composer_name_from_json(parsed: Result<Option<String>, String>) -> (r: LinkdResult<String>)
    ensures
        res_str(r) == name_from_member(member_view(parsed)),
{
    match parsed {
        Ok(Some(n)) => Ok(n),
        Ok(None) => Err(LinkdError::Other("composer.json missing name".to_owned())),
        Err(m) => Err(LinkdError::Other(m)),
    }
}

/// The `name` member of the source's `composer.json`.
pub fn parse_package_name(fs: &FsView, source: &str) -> (r: LinkdResult<String>)
    ensures
        res_str(r) == name_result(*fs, source@),
{
    let p = path_join(source, "composer.json");
    match read_text_exec(fs, p.as_str()) {
        Err(m) => Err(LinkdError::Io { path: p, message: m }),
        Ok(t) => composer_name_from_json(json_name(t.as_str())),
    }
}

/// A `vendor/package` name split at its only `/`.
pub open spec fn vendor_parts(name: Seq<char>) -> Option<(Seq<char>, Seq<char>)> {
    match find(name, seq!['/']) {
        Some(k) => {
            let rest = name.subrange(k + 1, name.len() as int);
            if find(rest, seq!['/']) is None {
                Some((name.subrange(0, k), rest))
            } else {
                None
            }
        },
        None => None,
    }
}

/// Where a Composer package goes: `vendor/<vendor>/<package>`.
pub open spec fn target_result(consumer: Seq<char>, name: Seq<char>) -> Result<TargetView, ErrView> {
    match vendor_parts(name) {
        Some((v, p)) => Ok(local_view(join(join(join(consumer, "vendor"@), v), p))),
        None => Err(ErrView::Other("invalid composer package name: "@ + name)),
    }
}

/// `consumer_root/vendor/<vendor>/<package>` for a name with exactly one `/`.
pub fn resolve_vendor_target(consumer_root: &str, package_name: &str) -> (r: LinkdResult<ResolvedSyncTarget>)
    ensures
        res_target(r) == target_result(consumer_root@, package_name@),
{
    let name = to_chars(package_name);
    let mut slash: Vec<char> = Vec::new();
    slash.push('/');
    assert(slash@ =~= seq!['/']);
    match find_exec(&name, &slash) {
        Some(k) => {
            assert(crate::text::occurs_at(name@, slash@, k as int));
            assert(k + 1 <= name.len());
            let rest = copy_range(&name, k + 1, name.len());
            if find_exec(&rest, &slash).is_none() {
                let v = from_chars(&copy_range(&name, 0, k));
                let p = from_chars(&rest);
                let a = path_join(consumer_root, "vendor");
                let b = path_join(a.as_str(), v.as_str());
                return Ok(project_local_target(path_join(b.as_str(), p.as_str())));
            }
        },
        None => {},
    }
    let msg = "invalid composer package name: ".to_owned();
    let full = concat_prefix(msg, package_name);
    Err(LinkdError::Other(full))
}

fn concat_prefix(a: String, b: &str) -> (r: String)
    ensures
        r@ == a@ + b@,
{
    let av = to_chars(a.as_str());
    let bv = to_chars(b);
    let mut out = av;
    let mut i: usize = 0;
    let ghost start = out@;
    while i < bv.len()
        invariant
            i <= bv.len(),
            out@ == start + bv@.subrange(0, i as int),
        decreases bv.len() - i,
    {
        out.push(bv[i]);
        i = i + 1;
    }
    assert(bv@.subrange(0, bv.len() as int) =~= bv@);
    from_chars(&out)
}

/// The files of a Composer package that are synced (see `ListRule::Composer`).
pub fn list_files(fs: &FsView, source: &str) -> (r: LinkdResult<Vec<String>>)
    ensures
        r matches Ok(v) ==> (fs.distinct_paths() && source@.len() > 0 ==> strictly_sorted_paths(str_views(v@))),
        r matches Ok(v) && sorted_paths(str_views(v@)) && str_views(v@).to_multiset() == walked(
            *fs,
            source@,
            ListRule::Composer,
            fs.len(),
        ).to_multiset(),
{
    Ok(list_files_with(fs, source, ListRule::Composer))
}

/// A character pattern occurs exactly where the string holds that character.
pub proof fn lemma_occurs_char(s: Seq<char>, c: char, i: int)
    ensures
        crate::text::occurs_at(s, seq![c], i) <==> (0 <= i < s.len() && s[i] == c),
{
    if 0 <= i < s.len() {
        if s[i] == c {
            assert(s.subrange(i, i + 1) =~= seq![c]);
        }
        if crate::text::occurs_at(s, seq![c], i) {
            assert(s.subrange(i, i + 1)[0] == s[i]);
        }
    }
}

/// Whether `name` holds exactly one `/`, so that splitting it at `/` gives
/// two parts.
pub open spec fn one_slash(name: Seq<char>) -> bool {
    exists|k: int|
        0 <= k < name.len() && name[k] == '/' && forall|j: int| 0 <= j < name.len() && #[trigger] name[j] == '/' ==> j == k
}

/// A Composer name resolves exactly when it splits at `/` into two parts,
/// the vendor and the package; the target is then
/// `vendor/<vendor>/<package>` in the consumer, written in place. Any other
/// name is refused with its text.
pub proof fn lemma_vendor_split(consumer: Seq<char>, name: Seq<char>)
    ensures
        target_result(consumer, name) is Ok <==> one_slash(name),
        target_result(consumer, name) matches Ok(t) ==> exists|k: int|
            0 <= k < name.len() && name[k] == '/' && t == local_view(
                join(join(join(consumer, "vendor"@), name.subrange(0, k)), name.subrange(k + 1, name.len() as int)),
            ),
        target_result(consumer, name) is Err ==> target_result(consumer, name) == Err::<TargetView, ErrView>(
            ErrView::Other("invalid composer package name: "@ + name),
        ),
{
    let slash = seq!['/'];
    crate::text::lemma_find_some(name, slash);
    match find(name, slash) {
        Some(k) => {
            lemma_occurs_char(name, '/', k);
            let rest = name.subrange(k + 1, name.len() as int);
            crate::text::lemma_find_some(rest, slash);
            assert forall|j: int| 0 <= j < k implies name[j] != '/' by {
                lemma_occurs_char(name, '/', j);
            }
            match find(rest, slash) {
                Some(m) => {
                    lemma_occurs_char(rest, '/', m);
                    assert(name[k + 1 + m] == '/');
                    if one_slash(name) {
                        let w = choose|w: int|
                            0 <= w < name.len() && name[w] == '/' && forall|j: int|
                                0 <= j < name.len() && #[trigger] name[j] == '/' ==> j == w;
                        assert(k == w);
                        assert(k + 1 + m == w);
                    }
                },
                None => {
                    assert forall|j: int| 0 <= j < name.len() && #[trigger] name[j] == '/' implies j == k by {
                        if j > k {
                            lemma_occurs_char(rest, '/', j - k - 1);
                            assert(rest[j - k - 1] == name[j]);
                        }
                    }
                    assert(one_slash(name));
                },
            }
        },
        None => {
            if one_slash(name) {
                let w = choose|w: int|
                    0 <= w < name.len() && name[w] == '/' && forall|j: int|
                        0 <= j < name.len() && #[trigger] name[j] == '/' ==> j == w;
                lemma_occurs_char(name, '/', w);
            }
        },
    }
}

/// With `vendor/composer` in the consumer, the markers of a Composer install
/// are `vendor/composer/installed.json` (first), `composer.lock`, then the
/// two autoload files of `vendor/composer`; without it, `composer.lock`
/// alone. This holds of every view that, as a file system does, holds the
/// directory of each of its entries, for a consumer path with at least one
/// component.
pub proof fn lemma_composer_markers(fs: FsView, c: Seq<char>)
    requires
        fs.parents_present(),
        components(c).len() > 0,
    ensures
        fs.has_path(join(join(c, "vendor"@), "composer"@)) ==> markers(fs, c) == seq![
            join(join(join(c, "vendor"@), "composer"@), "installed.json"@),
            join(c, "composer.lock"@),
            join(join(join(c, "vendor"@), "composer"@), "autoload_classmap.php"@),
            join(join(join(c, "vendor"@), "composer"@), "autoload_static.php"@),
        ],
        !fs.has_path(join(join(c, "vendor"@), "composer"@)) ==> markers(fs, c) == seq![join(c, "composer.lock"@)],
{
    reveal_strlit("vendor");
    reveal_strlit("composer");
    reveal_strlit("installed.json");
    reveal_strlit("composer.lock");
    reveal_strlit("autoload_classmap.php");
    reveal_strlit("autoload_static.php");
    assert(crate::paths::plain_name("vendor"@)) by {
        reveal_with_fuel(crate::paths::slash_free, 7);
        crate::paths::lemma_plain_name("vendor"@);
    }
    assert(crate::paths::plain_name("composer"@)) by {
        reveal_with_fuel(crate::paths::slash_free, 9);
        crate::paths::lemma_plain_name("composer"@);
    }
    assert(crate::paths::plain_name("installed.json"@)) by {
        reveal_with_fuel(crate::paths::slash_free, 15);
        crate::paths::lemma_plain_name("installed.json"@);
    }
    assert(crate::paths::plain_name("composer.lock"@)) by {
        reveal_with_fuel(crate::paths::slash_free, 14);
        crate::paths::lemma_plain_name("composer.lock"@);
    }
    assert(crate::paths::plain_name("autoload_classmap.php"@)) by {
        reveal_with_fuel(crate::paths::slash_free, 22);
        crate::paths::lemma_plain_name("autoload_classmap.php"@);
    }
    assert(crate::paths::plain_name("autoload_static.php"@)) by {
        reveal_with_fuel(crate::paths::slash_free, 20);
        crate::paths::lemma_plain_name("autoload_static.php"@);
    }
    let v = join(c, "vendor"@);
    let vc = join(v, "composer"@);
    crate::paths::lemma_join_plain(c, "vendor"@);
    if fs.has_path(vc) {
        crate::fs::lemma_parent_present(fs, v, "composer"@);
        crate::fs::lemma_parent_present(fs, c, "vendor"@);
    }
    crate::fs::lemma_parent_of_join(fs, vc, "installed.json"@);
    crate::fs::lemma_parent_of_join(fs, c, "composer.lock"@);
    crate::fs::lemma_parent_of_join(fs, vc, "autoload_classmap.php"@);
    crate::fs::lemma_parent_of_join(fs, vc, "autoload_static.php"@);
    reveal_with_fuel(crate::fs::keep_with_parent, 5);
    let cands = marker_candidates(c);
    assert(cands.drop_first().drop_first().drop_first().drop_first() =~= Seq::<Seq<char>>::empty());
    assert(cands.drop_first()[0] == cands[1]);
    assert(cands.drop_first().drop_first()[0] == cands[2]);
    assert(cands.drop_first().drop_first().drop_first()[0] == cands[3]);
    if fs.has_path(vc) {
        assert(crate::fs::keep_with_parent(fs, cands) =~= cands);
    } else if fs.has_path(c) {
        assert(crate::fs::keep_with_parent(fs, cands) =~= seq![join(c, "composer.lock"@)]);
    } else {
        assert(crate::fs::keep_with_parent(fs, cands) =~= Seq::<Seq<char>>::empty());
    }
}

/// A Composer package is named by the string `name` of its
/// `composer.json`; a `composer.json` without one is refused.
pub proof fn lemma_composer_name_from_json(fs: FsView, s: Seq<char>, t: Seq<char>)
    requires
        read_text(fs, join(s, "composer.json"@)) == Ok::<Seq<char>, Seq<char>>(t),
    ensures
        json_string_member(t, "name"@) matches Ok(Some(n)) ==> name_result(fs, s) == Ok::<Seq<char>, ErrView>(n),
        json_string_member(t, "name"@) == Ok::<Option<Seq<char>>, Seq<char>>(None) ==> name_result(fs, s) == Err::<
            Seq<char>,
            ErrView,
        >(ErrView::Other("composer.json missing name"@)),
{
}

} // verus!
