//! JVM projects (Maven, Gradle): synced into the consumer's `libs/`.

use vstd::prelude::*;
use crate::fs::{markers_with_fallback, read_text, read_text_exec, retain_with_parent, str_views, FsView};
use crate::manifest::{extract_gradle_field, extract_xml_tag, opt_str, read_name, xml_tag, LineRule};
use crate::model::{
    project_local, project_local_target, res_str, some_or_other, name_or_other_exec, ErrView,
    LinkdResult, ResolvedSyncTarget,
};
use crate::paths::{file_name, file_name_exec, join, path_join};
use crate::text::{concat_with, copy_range, find, find_exec, from_chars, to_chars};

verus! {

/// Hint shown after JVM sources were synced.
pub const JVM_HINT: &'static str = "JVM source files synced. Run Gradle/Maven with `--refresh-dependencies` or restart language server.";

/// The build files that mark a JVM project.
pub open spec fn jvm_markers(dir: Seq<char>, fs: FsView) -> bool {
    ||| fs.is_file(join(dir, "pom.xml"@))
    ||| fs.is_file(join(dir, "build.gradle"@))
    ||| fs.is_file(join(dir, "build.gradle.kts"@))
    ||| fs.is_file(join(dir, "settings.gradle"@))
    ||| fs.is_file(join(dir, "settings.gradle.kts"@))
}

fn has_jvm_markers(fs: &FsView, dir: &str) -> (r: bool)
    ensures
        r == jvm_markers(dir@, *fs),
{
    fs.is_file_exec(path_join(dir, "pom.xml").as_str()) || fs.is_file_exec(
        path_join(dir, "build.gradle").as_str(),
    ) || fs.is_file_exec(path_join(dir, "build.gradle.kts").as_str()) || fs.is_file_exec(
        path_join(dir, "settings.gradle").as_str(),
    ) || fs.is_file_exec(path_join(dir, "settings.gradle.kts").as_str())
}

/// A Maven or Gradle build file in the source or in the consumer.
pub fn detect_jvm(fs: &FsView, source: &str, consumer: &str) -> (r: bool)
    ensures
        r == (jvm_markers(source@, *fs) || jvm_markers(consumer@, *fs)),
{
    let source_is_jvm = has_jvm_markers(fs, source);
    let consumer_is_jvm = has_jvm_markers(fs, consumer);
    source_is_jvm || consumer_is_jvm
}

/// `group:artifact` (or `artifact`) from a readable `pom.xml`.
pub open spec fn pom_name(fs: FsView, source: Seq<char>) -> Option<Seq<char>> {
    let p = join(source, "pom.xml"@);
    if fs.is_file(p) && read_text(fs, p) is Ok {
        let t = read_text(fs, p)->Ok_0;
        match xml_tag(t, "artifactId"@) {
            Some(art) => match xml_tag(t, "groupId"@) {
                Some(g) => Some(g + seq![':'] + art),
                None => Some(art),
            },
            None => None,
        }
    } else {
        None
    }
}

/// The name of the source directory, or `lib`.
pub open spec fn root_name(source: Seq<char>) -> Seq<char> {
    match file_name(source) {
        Some(n) => n,
        None => "lib"@,
    }
}

/// `group:directory` from a readable Gradle build file with a `group`.
pub open spec fn gradle_name(fs: FsView, source: Seq<char>, file: Seq<char>) -> Option<Seq<char>> {
    let p = join(source, file);
    if fs.is_file(p) && read_text(fs, p) is Ok {
        match read_name(read_text(fs, p)->Ok_0, LineRule::GradleField("group"@)) {
            Some(g) => Some(g + seq![':'] + root_name(source)),
            None => None,
        }
    } else {
        None
    }
}

/// The JVM package name: from `pom.xml`, else `build.gradle`, else
/// `build.gradle.kts`, else the name of the source directory.
pub open spec fn jvm_name(fs: FsView, source: Seq<char>) -> Option<Seq<char>> {
    if pom_name(fs, source) is Some {
        pom_name(fs, source)
    } else if gradle_name(fs, source, "build.gradle"@) is Some {
        gradle_name(fs, source, "build.gradle"@)
    } else if gradle_name(fs, source, "build.gradle.kts"@) is Some {
        gradle_name(fs, source, "build.gradle.kts"@)
    } else {
        file_name(source)
    }
}

fn pom_name_exec(fs: &FsView, source: &str) -> (r: Option<String>)
    ensures
        opt_str(r) == pom_name(*fs, source@),
{
    let p = path_join(source, "pom.xml");
    if !fs.is_file_exec(p.as_str()) {
        return None;
    }
    match read_text_exec(fs, p.as_str()) {
        Ok(t) => {
            let group = extract_xml_tag(t.as_str(), "groupId");
            let artifact = extract_xml_tag(t.as_str(), "artifactId");
            match artifact {
                Some(art) => match group {
                    Some(grp) => Some(concat_with(grp.as_str(), ':', art.as_str())),
                    None => Some(art),
                },
                None => None,
            }
        },
        Err(_) => None,
    }
}

fn gradle_name_exec(fs: &FsView, source: &str, file: &str) -> (r: Option<String>)
    ensures
        opt_str(r) == gradle_name(*fs, source@, file@),
{
    let p = path_join(source, file);
    if !fs.is_file_exec(p.as_str()) {
        return None;
    }
    match read_text_exec(fs, p.as_str()) {
        Ok(t) => {
            let group = extract_gradle_field(t.as_str(), "group");
            let root = match file_name_exec(source) {
                Some(n) => n,
                None => "lib".to_owned(),
            };
            match group {
                Some(grp) => Some(concat_with(grp.as_str(), ':', root.as_str())),
                None => None,
            }
        },
        Err(_) => None,
    }
}

/// What reading the package name of `source` gives.
pub open spec fn name_result(fs: FsView, source: Seq<char>) -> Result<Seq<char>, ErrView> {
    some_or_other(jvm_name(fs, source), "could not determine JVM package name"@)
}

/// The package name: `groupId:artifactId` from `pom.xml`, else
/// `group:<directory>` from a Gradle build file, else the directory's name.
pub fn parse_jvm_package_name(fs: &FsView, source: &str) -> (r: LinkdResult<String>)
    ensures
        res_str(r) == name_result(*fs, source@),
{
    let name = match pom_name_exec(fs, source) {
        Some(n) => Some(n),
        None => match gradle_name_exec(fs, source, "build.gradle") {
            Some(n) => Some(n),
            None => match gradle_name_exec(fs, source, "build.gradle.kts") {
                Some(n) => Some(n),
                None => file_name_exec(source),
            },
        },
    };
    name_or_other_exec(name, "could not determine JVM package name")
}

/// Build files whose change shows a JVM build in the consumer.
pub open spec fn marker_candidates(consumer: Seq<char>) -> Seq<Seq<char>> {
    seq![
        join(consumer, "pom.xml"@),
        join(consumer, "build.gradle"@),
        join(consumer, "build.gradle.kts"@),
        join(consumer, "gradle.lockfile"@),
        join(consumer, "gradlew"@),
    ]
}

/// The completion markers of `consumer`: the candidates whose directory
/// exists, or the fallback when none does.
pub open spec fn markers(fs: FsView, consumer: Seq<char>) -> Seq<Seq<char>> {
    markers_with_fallback(fs, marker_candidates(consumer), join(consumer, "pom.xml"@))
}

/// The markers whose directory exists, else `pom.xml`.
pub fn completion_markers(fs: &FsView, consumer_root: &str) -> (r: Vec<String>)
    ensures
        str_views(r@) == markers(*fs, consumer_root@),
{
    let mut cands: Vec<String> = Vec::new();
    cands.push(path_join(consumer_root, "pom.xml"));
    cands.push(path_join(consumer_root, "build.gradle"));
    cands.push(path_join(consumer_root, "build.gradle.kts"));
    cands.push(path_join(consumer_root, "gradle.lockfile"));
    cands.push(path_join(consumer_root, "gradlew"));
    assert(str_views(cands@) =~= marker_candidates(consumer_root@));
    retain_with_parent(fs, cands, path_join(consumer_root, "pom.xml"))
}

/// The hint after a sync from `source`.
pub open spec fn hint(fs: FsView, source: Seq<char>) -> Option<Seq<char>> {
    if fs.has_path(join(source, "pom.xml"@)) || fs.has_path(join(source, "build.gradle"@))
        || fs.has_path(join(source, "build.gradle.kts"@)) {
        Some(JVM_HINT@)
    } else {
        None
    }
}

/// A hint when the source has a Maven or Gradle build file.
pub fn post_sync_hint(fs: &FsView, source: &str, consumer: &str) -> (r: Option<String>)
    ensures
        opt_str(r) == hint(*fs, source@),
{
    if fs.exists_exec(path_join(source, "pom.xml").as_str()) || fs.exists_exec(
        path_join(source, "build.gradle").as_str(),
    ) || fs.exists_exec(path_join(source, "build.gradle.kts").as_str()) {
        Some(JVM_HINT.to_owned())
    } else {
        None
    }
}

/// The artifact of a `group:artifact` name (the part after the first `:`),
/// or the whole name.
pub open spec fn artifact_of(name: Seq<char>) -> Seq<char> {
    match find(name, seq![':']) {
        Some(k) => name.subrange(k + 1, name.len() as int),
        None => name,
    }
}

/// `consumer_root/libs/<artifact>`.
pub fn resolve_jvm_target(consumer_root: &str, package_name: &str) -> (r: LinkdResult<ResolvedSyncTarget>)
    ensures
        r matches Ok(t) && project_local(
            join(join(consumer_root@, "libs"@), artifact_of(package_name@)),
            t,
        ),
{
    let v = to_chars(package_name);
    let mut colon: Vec<char> = Vec::new();
    colon.push(':');
    assert(colon@ =~= seq![':']);
    let artifact = match find_exec(&v, &colon) {
        Some(k) => {
            assert(crate::text::occurs_at(v@, colon@, k as int));
            assert(k + 1 <= v.len());
            from_chars(&copy_range(&v, k + 1, v.len()))
        },
        None => from_chars(&v),
    };
    let libs = path_join(consumer_root, "libs");
    Ok(project_local_target(path_join(libs.as_str(), artifact.as_str())))
}

/// The completion markers of a consumer that exists are `pom.xml`,
/// `build.gradle`, `build.gradle.kts`, `gradle.lockfile` and `gradlew`, in
/// this order; of a consumer that does not exist, `pom.xml` alone.
pub proof fn lemma_jvm_markers(fs: FsView, c: Seq<char>)
    ensures
        fs.has_path(c) ==> markers(fs, c) == marker_candidates(c),
        !fs.has_path(c) ==> markers(fs, c) == seq![join(c, "pom.xml"@)],
{
    reveal_strlit("pom.xml");
    reveal_strlit("build.gradle");
    assert(crate::paths::plain_name("build.gradle"@)) by {
        reveal_with_fuel(crate::paths::slash_free, 13);
        crate::paths::lemma_plain_name("build.gradle"@);
    }
    reveal_strlit("build.gradle.kts");
    reveal_strlit("gradle.lockfile");
    assert(crate::paths::plain_name("gradle.lockfile"@)) by {
        reveal_with_fuel(crate::paths::slash_free, 16);
        crate::paths::lemma_plain_name("gradle.lockfile"@);
    }
    reveal_strlit("gradlew");
    assert(crate::paths::plain_name("pom.xml"@)) by {
        reveal_with_fuel(crate::paths::slash_free, 8);
        crate::paths::lemma_plain_name("pom.xml"@);
    }
    crate::fs::lemma_parent_of_join(fs, c, "pom.xml"@);
    crate::fs::lemma_parent_of_join(fs, c, "build.gradle"@);
    assert(crate::paths::plain_name("build.gradle.kts"@)) by {
        reveal_with_fuel(crate::paths::slash_free, 17);
        crate::paths::lemma_plain_name("build.gradle.kts"@);
    }
    crate::fs::lemma_parent_of_join(fs, c, "build.gradle.kts"@);
    crate::fs::lemma_parent_of_join(fs, c, "gradle.lockfile"@);
    assert(crate::paths::plain_name("gradlew"@)) by {
        reveal_with_fuel(crate::paths::slash_free, 8);
        crate::paths::lemma_plain_name("gradlew"@);
    }
    crate::fs::lemma_parent_of_join(fs, c, "gradlew"@);
    reveal_with_fuel(crate::fs::keep_with_parent, 6);
    let cands = marker_candidates(c);
    assert(cands.drop_first().drop_first().drop_first().drop_first().drop_first() =~= Seq::<Seq<char>>::empty());
    assert(cands.drop_first()[0] == cands[1]);
    assert(cands.drop_first().drop_first()[0] == cands[2]);
    assert(cands.drop_first().drop_first().drop_first()[0] == cands[3]);
    assert(cands.drop_first().drop_first().drop_first().drop_first()[0] == cands[4]);
    if fs.has_path(c) {
        assert(crate::fs::keep_with_parent(fs, cands) =~= cands);
    } else {
        assert(crate::fs::keep_with_parent(fs, cands) =~= Seq::<Seq<char>>::empty());
    }
}

/// A readable `pom.xml` names the package by its `groupId` g and its
/// `artifactId` a as `g:a`, group first (by a alone without a group); with
/// no `:` in g, the part after the first `:`, under which the package is
/// synced (`libs/<artifact>`), is then the artifactId.
pub proof fn lemma_pom_group_then_artifact(fs: FsView, source: Seq<char>, t: Seq<char>, a: Seq<char>)
    requires
        fs.is_file(join(source, "pom.xml"@)),
        read_text(fs, join(source, "pom.xml"@)) == Ok::<Seq<char>, Seq<char>>(t),
        xml_tag(t, "artifactId"@) == Some(a),
    ensures
        xml_tag(t, "groupId"@) matches Some(g) ==> name_result(fs, source) == Ok::<Seq<char>, ErrView>(
            g + seq![':'] + a,
        ),
        xml_tag(t, "groupId"@) matches Some(g) ==> (!g.contains(':') ==> artifact_of(g + seq![':'] + a) == a),
        xml_tag(t, "groupId"@) is None ==> name_result(fs, source) == Ok::<Seq<char>, ErrView>(a),
{
    match xml_tag(t, "groupId"@) {
        Some(g) => {
            if !g.contains(':') {
                let n = g + seq![':'] + a;
                let k = g.len() as int;
                crate::composer::lemma_occurs_char(n, ':', k);
                assert forall|j: int| 0 <= j < k implies !crate::text::occurs_at(n, seq![':'], j) by {
                    crate::composer::lemma_occurs_char(n, ':', j);
                    assert(n[j] == g[j]);
                }
                crate::text::lemma_find_first(n, seq![':'], k);
                assert(n.subrange(k + 1, n.len() as int) =~= a);
            }
        },
        None => {},
    }
}

/// Without a `pom.xml`, a Gradle build file (`build.gradle` first, then
/// `build.gradle.kts`) with a `group` g names the package `g:<directory>`
/// (`lib` for a source without a name); with neither, the package takes the
/// name of its directory.
pub proof fn lemma_gradle_group_then_directory(fs: FsView, s: Seq<char>)
    requires
        !fs.is_file(join(s, "pom.xml"@)),
    ensures
        fs.is_file(join(s, "build.gradle"@)) ==> (read_text(fs, join(s, "build.gradle"@)) matches Ok(t) ==> (
        read_name(t, LineRule::GradleField("group"@)) matches Some(g) ==> name_result(fs, s) == Ok::<
            Seq<char>,
            ErrView,
        >(g + seq![':'] + match file_name(s) {
            Some(d) => d,
            None => "lib"@,
        }))),
        !fs.is_file(join(s, "build.gradle"@)) ==> (fs.is_file(join(s, "build.gradle.kts"@)) ==> (read_text(
            fs,
            join(s, "build.gradle.kts"@),
        ) matches Ok(t) ==> (read_name(t, LineRule::GradleField("group"@)) matches Some(g) ==> name_result(fs, s)
            == Ok::<Seq<char>, ErrView>(g + seq![':'] + match file_name(s) {
            Some(d) => d,
            None => "lib"@,
        })))),
        !fs.is_file(join(s, "build.gradle"@)) && !fs.is_file(join(s, "build.gradle.kts"@)) ==> (file_name(s) matches Some(
            d,
        ) ==> name_result(fs, s) == Ok::<Seq<char>, ErrView>(d)),
{
}

} // verus!
