//! Reading package names out of manifest text.
//!
//! Each ecosystem names its packages in a manifest of its own. The readers
//! here are line scanners: the first line that a rule accepts gives the name.

use vstd::prelude::*;
use crate::text::{
    copy_range, find, find_exec, find_str, from_chars, is_prefix, lines, lit, split_lines,
    starts_with_char, strip_prefix, strip_prefix_char, strip_prefix_exec, strip_prefix_str,
    take_while, take_while_exec, trim, trim_exec, trim_set, trim_set_exec, views, CharSet,
    chars_eq,
};

verus! {

/// The view of an optional character vector.
pub open spec fn opt_view(o: Option<Vec<char>>) -> Option<Seq<char>> {
    match o {
        Some(v) => Some(v@),
        None => None,
    }
}

/// The view of an optional string.
pub open spec fn opt_str(o: Option<String>) -> Option<Seq<char>> {
    match o {
        Some(s) => Some(s@),
        None => None,
    }
}

/// `Some(s)` when `s` is not empty.
pub open spec fn non_empty(s: Seq<char>) -> Option<Seq<char>> {
    if s.len() > 0 {
        Some(s)
    } else {
        None
    }
}

/// A rule that reads a name out of one manifest line.
pub enum LineRule {
    /// `pubspec.yaml`: `name: value`.
    Pubspec,
    /// `mix.exs`: `app: :atom` or `app: "name"`.
    MixApp,
    /// `go.mod`: `module path`.
    GoModule,
    /// `setup.cfg`: `name = value`.
    SetupCfg,
    /// `setup.py`: `name="value"` or `name='value'`.
    SetupPy,
    /// `.gemspec`: `spec.name = "value"`.
    Gemspec,
    /// `Package.swift`: `name: "Value"`.
    SwiftName,
    /// `.csproj` and `Directory.Build.props`: `<PackageId>value</PackageId>`.
    PackageId,
    /// `build.gradle`: `field = 'value'` or `field "value"`.
    GradleField(Seq<char>),
}

/// `pubspec.yaml`: a line `name: value`, comments skipped, quotes dropped.
pub open spec fn pubspec_line(t: Seq<char>) -> Option<Seq<char>> {
    if starts_with_char(t, '#') {
        None
    } else {
        match strip_prefix(t, "name:"@) {
            Some(rest) => non_empty(
                trim(trim_set(trim_set(trim(rest), CharSet::Only('"')), CharSet::Only('\''))),
            ),
            None => None,
        }
    }
}

/// `mix.exs`: after the first `app:`, an atom (`:name`, alphanumeric and `_`)
/// or a double-quoted name.
pub open spec fn mix_line(t: Seq<char>) -> Option<Seq<char>> {
    if starts_with_char(t, '#') {
        None
    } else {
        match find(t, "app:"@) {
            Some(pos) => {
                let after = trim(t.subrange(pos + "app:"@.len(), t.len() as int));
                if starts_with_char(after, ':') {
                    non_empty(take_while(after.drop_first(), CharSet::Word))
                } else if starts_with_char(after, '"') {
                    non_empty(take_while(after.drop_first(), CharSet::Except('"')))
                } else {
                    None
                }
            },
            None => None,
        }
    }
}

/// `go.mod`: a line beginning with `module`, the rest trimmed.
pub open spec fn go_module_line(t: Seq<char>) -> Option<Seq<char>> {
    match strip_prefix(t, "module"@) {
        Some(rest) => non_empty(trim(rest)),
        None => None,
    }
}

/// `setup.cfg`: `name`, then `=`, then the value.
pub open spec fn setup_cfg_line(t: Seq<char>) -> Option<Seq<char>> {
    match strip_prefix(t, "name"@) {
        Some(rest) => match strip_prefix(trim(rest), seq!['=']) {
            Some(v) => non_empty(trim(v)),
            None => None,
        },
        None => None,
    }
}

/// `setup.py`: after the first `name=`, a quoted value (possibly empty).
pub open spec fn setup_py_line(t: Seq<char>) -> Option<Seq<char>> {
    match find(t, "name="@) {
        Some(pos) => {
            let rest = trim(t.subrange(pos + "name="@.len(), t.len() as int));
            if rest.len() > 2 && (rest[0] == '"' || rest[0] == '\'') {
                match find(rest.drop_first(), seq![rest[0]]) {
                    Some(end) => Some(rest.subrange(1, 1 + end)),
                    None => None,
                }
            } else {
                None
            }
        },
        None => None,
    }
}

/// `.gemspec`: after `.name`, the first `=`, then the value with quotes
/// and a leading symbol colon dropped.
pub open spec fn gemspec_line(t: Seq<char>) -> Option<Seq<char>> {
    if starts_with_char(t, '#') {
        None
    } else {
        match find(t, ".name"@) {
            Some(pos) => match find(t.subrange(pos, t.len() as int), seq!['=']) {
                Some(eq) => {
                    let v = trim(t.subrange(pos + eq + 1, t.len() as int));
                    non_empty(
                        trim(
                            trim_set(
                                trim_set(trim_set(v, CharSet::Only('"')), CharSet::Only('\'')),
                                CharSet::Only(':'),
                            ),
                        ),
                    )
                },
                None => None,
            },
            None => None,
        }
    }
}

/// `Package.swift`: after the first `name:`, a quoted name; `//` comments
/// skipped.
pub open spec fn swift_line(t: Seq<char>) -> Option<Seq<char>> {
    if is_prefix(seq!['/', '/'], t) {
        None
    } else {
        match find(t, "name:"@) {
            Some(pos) => {
                let after = trim(t.subrange(pos + "name:"@.len(), t.len() as int));
                if after.len() > 0 && (after[0] == '"' || after[0] == '\'') {
                    non_empty(take_while(after.drop_first(), CharSet::Except(after[0])))
                } else {
                    None
                }
            },
            None => None,
        }
    }
}

/// Whether a line holds `</PackageId>` before `<PackageId>`; reading its
/// value then slices backwards, which panics.
pub open spec fn package_id_reversed(t: Seq<char>) -> bool {
    match (find(t, "<PackageId>"@), find(t, "</PackageId>"@)) {
        (Some(s), Some(e)) => e < s + "<PackageId>"@.len(),
        _ => false,
    }
}

/// `<PackageId>value</PackageId>` on one line.
pub open spec fn package_id_line(t: Seq<char>) -> Option<Seq<char>> {
    match find(t, "<PackageId>"@) {
        Some(s) => match find(t, "</PackageId>"@) {
            Some(e) => non_empty(trim(t.subrange(s + "<PackageId>"@.len(), e))),
            None => None,
        },
        None => None,
    }
}

/// `build.gradle`: a line beginning with `field`, then an optional `=`,
/// then a quoted value.
pub open spec fn gradle_line(field: Seq<char>, t: Seq<char>) -> Option<Seq<char>> {
    match strip_prefix(t, field) {
        Some(rest0) => {
            let rest = trim(rest0);
            let val = trim(
                match strip_prefix(rest, seq!['=']) {
                    Some(x) => x,
                    None => rest,
                },
            );
            let cleaned = trim_set(val, CharSet::Quotes);
            if cleaned.len() > 0 && cleaned != val {
                Some(cleaned)
            } else {
                None
            }
        },
        None => None,
    }
}

/// What `rule` reads from a line (the line is trimmed first).
pub open spec fn apply_rule(rule: LineRule, line: Seq<char>) -> Option<Seq<char>> {
    let t = trim(line);
    match rule {
        LineRule::Pubspec => pubspec_line(t),
        LineRule::MixApp => mix_line(t),
        LineRule::GoModule => go_module_line(t),
        LineRule::SetupCfg => setup_cfg_line(t),
        LineRule::SetupPy => setup_py_line(t),
        LineRule::Gemspec => gemspec_line(t),
        LineRule::SwiftName => swift_line(t),
        LineRule::PackageId => package_id_line(t),
        LineRule::GradleField(f) => gradle_line(f, t),
    }
}

/// Whether reading `line` with `rule` would panic.
pub open spec fn rule_panics(rule: LineRule, line: Seq<char>) -> bool {
    rule is PackageId && package_id_reversed(trim(line))
}

/// The first name that `rule` reads from the lines `ls`.
pub open spec fn first_match(ls: Seq<Seq<char>>, rule: LineRule) -> Option<Seq<char>>
    decreases ls.len(),
{
    if ls.len() == 0 {
        None
    } else if apply_rule(rule, ls[0]) is Some {
        apply_rule(rule, ls[0])
    } else {
        first_match(ls.drop_first(), rule)
    }
}

/// Whether a scan of `ls` with `rule` reaches a line on which it panics.
pub open spec fn scan_panics(ls: Seq<Seq<char>>, rule: LineRule) -> bool
    decreases ls.len(),
{
    if ls.len() == 0 {
        false
    } else if rule_panics(rule, ls[0]) {
        true
    } else if apply_rule(rule, ls[0]) is Some {
        false
    } else {
        scan_panics(ls.drop_first(), rule)
    }
}

/// The name that `rule` reads from a manifest text: the first line that it
/// accepts.
pub open spec fn read_name(text: Seq<char>, rule: LineRule) -> Option<Seq<char>> {
    first_match(lines(text), rule)
}

/// Whether reading a manifest text with `rule` panics.
pub open spec fn read_panics(text: Seq<char>, rule: LineRule) -> bool {
    scan_panics(lines(text), rule)
}

/// A line rule, as computed.
pub enum Rule {
    Pubspec,
    MixApp,
    GoModule,
    SetupCfg,
    SetupPy,
    Gemspec,
    SwiftName,
    PackageId,
    GradleField(Vec<char>),
}

impl View for Rule {
    type V = LineRule;

    open spec fn view(&self) -> LineRule {
        match self {
            Rule::Pubspec => LineRule::Pubspec,
            Rule::MixApp => LineRule::MixApp,
            Rule::GoModule => LineRule::GoModule,
            Rule::SetupCfg => LineRule::SetupCfg,
            Rule::SetupPy => LineRule::SetupPy,
            Rule::Gemspec => LineRule::Gemspec,
            Rule::SwiftName => LineRule::SwiftName,
            Rule::PackageId => LineRule::PackageId,
            Rule::GradleField(f) => LineRule::GradleField(f@),
        }
    }
}

fn pubspec_exec(t: &Vec<char>) -> (r: Option<Vec<char>>)
    ensures
        opt_view(r) == pubspec_line(t@),
{
    if t.len() > 0 && t[0] == '#' {
        return None;
    }
    match strip_prefix_str(t, "name:") {
        Some(rest) => {
            let a = trim_exec(&rest);
            let b = trim_set_exec(&a, CharSet::Only('"'));
            let c = trim_set_exec(&b, CharSet::Only('\''));
            let d = trim_exec(&c);
            if d.len() > 0 {
                Some(d)
            } else {
                None
            }
        },
        None => None,
    }
}

fn mix_exec(t: &Vec<char>) -> (r: Option<Vec<char>>)
    ensures
        opt_view(r) == mix_line(t@),
{
    if t.len() > 0 && t[0] == '#' {
        return None;
    }
    let pat = lit("app:");
    match find_exec(t, &pat) {
        Some(pos) => {
            let tail = copy_range(t, pos + pat.len(), t.len());
            let after = trim_exec(&tail);
            if after.len() > 0 && after[0] == ':' {
                let rest = copy_range(&after, 1, after.len());
                assert(rest@ == after@.drop_first());
                let name = take_while_exec(&rest, CharSet::Word);
                if name.len() > 0 {
                    Some(name)
                } else {
                    None
                }
            } else if after.len() > 0 && after[0] == '"' {
                let rest = copy_range(&after, 1, after.len());
                assert(rest@ == after@.drop_first());
                let name = take_while_exec(&rest, CharSet::Except('"'));
                if name.len() > 0 {
                    Some(name)
                } else {
                    None
                }
            } else {
                None
            }
        },
        None => None,
    }
}

fn go_module_exec(t: &Vec<char>) -> (r: Option<Vec<char>>)
    ensures
        opt_view(r) == go_module_line(t@),
{
    match strip_prefix_str(t, "module") {
        Some(rest) => {
            let m = trim_exec(&rest);
            if m.len() > 0 {
                Some(m)
            } else {
                None
            }
        },
        None => None,
    }
}

fn setup_cfg_exec(t: &Vec<char>) -> (r: Option<Vec<char>>)
    ensures
        opt_view(r) == setup_cfg_line(t@),
{
    match strip_prefix_str(t, "name") {
        Some(rest) => {
            let r1 = trim_exec(&rest);
            match strip_prefix_char(&r1, '=') {
                Some(v) => {
                    let n = trim_exec(&v);
                    if n.len() > 0 {
                        Some(n)
                    } else {
                        None
                    }
                },
                None => None,
            }
        },
        None => None,
    }
}

fn setup_py_exec(t: &Vec<char>) -> (r: Option<Vec<char>>)
    ensures
        opt_view(r) == setup_py_line(t@),
{
    let pat = lit("name=");
    match find_exec(t, &pat) {
        Some(pos) => {
            assert(crate::text::occurs_at(t@, pat@, pos as int));
            assert(pos + pat@.len() <= t@.len());
            assert(pat@.len() == pat.len());
            assert(pos + pat.len() <= t.len());
            let start = pos + pat.len();
            let tail = copy_range(t, start, t.len());
            let rest = trim_exec(&tail);
            if rest.len() > 2 && (rest[0] == '"' || rest[0] == '\'') {
                let q = rest[0];
                let inner = copy_range(&rest, 1, rest.len());
                assert(inner@ == rest@.drop_first());
                let mut qv: Vec<char> = Vec::new();
                qv.push(q);
                assert(qv@ =~= seq![q]);
                match find_exec(&inner, &qv) {
                    Some(end) => {
                        Some(copy_range(&rest, 1, 1 + end))
                    },
                    None => None,
                }
            } else {
                None
            }
        },
        None => None,
    }
}

fn gemspec_exec(t: &Vec<char>) -> (r: Option<Vec<char>>)
    ensures
        opt_view(r) == gemspec_line(t@),
{
    if t.len() > 0 && t[0] == '#' {
        return None;
    }
    match find_str(t, ".name") {
        Some(pos) => {
            let tail = copy_range(t, pos, t.len());
            let mut eqv: Vec<char> = Vec::new();
            eqv.push('=');
            assert(eqv@ =~= seq!['=']);
            match find_exec(&tail, &eqv) {
                Some(eq) => {
                    let vraw = copy_range(t, pos + eq + 1, t.len());
                    let v = trim_exec(&vraw);
                    let a = trim_set_exec(&v, CharSet::Only('"'));
                    let b = trim_set_exec(&a, CharSet::Only('\''));
                    let c = trim_set_exec(&b, CharSet::Only(':'));
                    let d = trim_exec(&c);
                    if d.len() > 0 {
                        Some(d)
                    } else {
                        None
                    }
                },
                None => None,
            }
        },
        None => None,
    }
}

fn swift_exec(t: &Vec<char>) -> (r: Option<Vec<char>>)
    ensures
        opt_view(r) == swift_line(t@),
{
    if t.len() >= 2 && t[0] == '/' && t[1] == '/' {
        assert(t@.subrange(0, 2) =~= seq!['/', '/']);
        return None;
    }
    assert(!is_prefix(seq!['/', '/'], t@)) by {
        if is_prefix(seq!['/', '/'], t@) {
            assert(t@.subrange(0, 2)[0] == '/');
            assert(t@.subrange(0, 2)[1] == '/');
        }
    }
    let pat = lit("name:");
    match find_exec(t, &pat) {
        Some(pos) => {
            let tail = copy_range(t, pos + pat.len(), t.len());
            let after = trim_exec(&tail);
            if after.len() > 0 && (after[0] == '"' || after[0] == '\'') {
                let q = after[0];
                let rest = copy_range(&after, 1, after.len());
                assert(rest@ == after@.drop_first());
                let name = take_while_exec(&rest, CharSet::Except(q));
                if name.len() > 0 {
                    Some(name)
                } else {
                    None
                }
            } else {
                None
            }
        },
        None => None,
    }
}

fn package_id_exec(t: &Vec<char>) -> (r: Option<Vec<char>>)
    requires
        !package_id_reversed(t@),
    ensures
        opt_view(r) == package_id_line(t@),
{
    let open = lit("<PackageId>");
    let close = lit("</PackageId>");
    match find_exec(t, &open) {
        Some(s) => match find_exec(t, &close) {
            Some(e) => {
                let raw = copy_range(t, s + open.len(), e);
                let id = trim_exec(&raw);
                if id.len() > 0 {
                    Some(id)
                } else {
                    None
                }
            },
            None => None,
        },
        None => None,
    }
}

fn gradle_exec(field: &Vec<char>, t: &Vec<char>) -> (r: Option<Vec<char>>)
    ensures
        opt_view(r) == gradle_line(field@, t@),
{
    match strip_prefix_exec(t, field) {
        Some(rest0) => {
            let rest = trim_exec(&rest0);
            let valraw = match strip_prefix_char(&rest, '=') {
                Some(x) => x,
                None => copy_range(&rest, 0, rest.len()),
            };
            assert(rest@.subrange(0, rest@.len() as int) =~= rest@);
            let val = trim_exec(&valraw);
            let cleaned = trim_set_exec(&val, CharSet::Quotes);
            if cleaned.len() > 0 && !chars_eq(&cleaned, &val) {
                Some(cleaned)
            } else {
                None
            }
        },
        None => None,
    }
}

/// What `rule` reads from one line.
pub fn apply_rule_exec(rule: &Rule, line: &Vec<char>) -> (r: Option<Vec<char>>)
    requires
        !rule_panics(rule@, line@),
    ensures
        opt_view(r) == apply_rule(rule@, line@),
{
    let t = trim_exec(line);
    match rule {
        Rule::Pubspec => pubspec_exec(&t),
        Rule::MixApp => mix_exec(&t),
        Rule::GoModule => go_module_exec(&t),
        Rule::SetupCfg => setup_cfg_exec(&t),
        Rule::SetupPy => setup_py_exec(&t),
        Rule::Gemspec => gemspec_exec(&t),
        Rule::SwiftName => swift_exec(&t),
        Rule::PackageId => package_id_exec(&t),
        Rule::GradleField(f) => gradle_exec(f, &t),
    }
}

/// Whether reading `line` with `rule` would panic.
fn rule_panics_exec(rule: &Rule, line: &Vec<char>) -> (r: bool)
    ensures
        r == rule_panics(rule@, line@),
{
    match rule {
        Rule::PackageId => {
            let t = trim_exec(line);
            let open = lit("<PackageId>");
            let close = lit("</PackageId>");
            match (find_exec(&t, &open), find_exec(&t, &close)) {
                (Some(s), Some(e)) => {
                    assert(crate::text::occurs_at(t@, open@, s as int));
                    assert(s + open.len() <= t.len());
                    e < s + open.len()
                },
                _ => false,
            }
        },
        _ => false,
    }
}

/// Whether reading a manifest text with `rule` would panic.
pub fn read_panics_exec(text: &str, rule: &Rule) -> (r: bool)
    ensures
        r == read_panics(text@, rule@),
{
    let v = crate::text::to_chars(text);
    let ls = split_lines(&v);
    let ghost all = views(ls@);
    let mut i: usize = 0;
    assert(all.skip(0) =~= all);
    while i < ls.len()
        invariant
            i <= ls.len(),
            all == views(ls@),
            all == lines(v@),
            v@ == text@,
            scan_panics(all, rule@) == scan_panics(all.skip(i as int), rule@),
        decreases ls.len() - i,
    {
        let ghost rest = all.skip(i as int);
        assert(rest[0] == ls@[i as int]@);
        assert(rest.drop_first() =~= all.skip(i + 1));
        if rule_panics_exec(rule, &ls[i]) {
            return true;
        }
        if apply_rule_exec(rule, &ls[i]).is_some() {
            return false;
        }
        i = i + 1;
    }
    false
}

/// The name that `rule` reads from a manifest text.
pub fn read_name_exec(text: &str, rule: &Rule) -> (r: Option<String>)
    requires
        !read_panics(text@, rule@),
    ensures
        opt_str(r) == read_name(text@, rule@),
{
    let v = crate::text::to_chars(text);
    let ls = split_lines(&v);
    let ghost all = views(ls@);
    let mut i: usize = 0;
    assert(all.skip(0) =~= all);
    while i < ls.len()
        invariant
            i <= ls.len(),
            all == views(ls@),
            all == lines(v@),
            v@ == text@,
            first_match(all, rule@) == first_match(all.skip(i as int), rule@),
            scan_panics(all, rule@) == scan_panics(all.skip(i as int), rule@),
            !scan_panics(all, rule@),
        decreases ls.len() - i,
    {
        let ghost rest = all.skip(i as int);
        assert(rest[0] == ls@[i as int]@);
        assert(rest.drop_first() =~= all.skip(i + 1));
        let r = apply_rule_exec(rule, &ls[i]);
        match r {
            Some(name) => {
                assert(first_match(rest, rule@) == apply_rule(rule@, rest[0]));
                assert(apply_rule(rule@, rest[0]) == Some(name@));
                assert(first_match(all, rule@) == Some(name@));
                assert(read_name(text@, rule@) == Some(name@));
                let out = from_chars(&name);
                assert(opt_str(Some(out)) == Some(name@));
                return Some(out);
            },
            None => {},
        }
        i = i + 1;
    }
    None
}

/// A TOML table header `[name]`, and the name inside it (trimmed).
pub open spec fn section_header(t: Seq<char>) -> Option<Seq<char>> {
    if starts_with_char(t, '[') && crate::text::ends_with_char(t, ']') {
        Some(trim(t.subrange(1, t.len() - 1)))
    } else {
        None
    }
}

/// A line `name = value`, the value trimmed and stripped of quotes.
pub open spec fn name_assignment(t: Seq<char>) -> Option<Seq<char>> {
    match strip_prefix(t, "name"@) {
        Some(rest) => match strip_prefix(trim(rest), seq!['=']) {
            Some(v) => non_empty(trim_set(trim(v), CharSet::Quotes)),
            None => None,
        },
        None => None,
    }
}

/// The first `name = value` that stands in one of `sections`, the current
/// table being `cur`.
pub open spec fn section_scan(ls: Seq<Seq<char>>, cur: Seq<char>, sections: Seq<Seq<char>>) -> Option<
    Seq<char>,
>
    decreases ls.len(),
{
    if ls.len() == 0 {
        None
    } else {
        let t = trim(ls[0]);
        match section_header(t) {
            Some(h) => section_scan(ls.drop_first(), h, sections),
            None => if sections.contains(cur) && name_assignment(t) is Some {
                name_assignment(t)
            } else {
                section_scan(ls.drop_first(), cur, sections)
            },
        }
    }
}

/// The `name` of a TOML manifest: the first `name = value` line that stands
/// in one of the tables `sections`.
pub open spec fn toml_name(text: Seq<char>, sections: Seq<Seq<char>>) -> Option<Seq<char>> {
    section_scan(lines(text), seq![], sections)
}

fn section_header_exec(t: &Vec<char>) -> (r: Option<Vec<char>>)
    ensures
        opt_view(r) == section_header(t@),
{
    if t.len() > 0 && t[0] == '[' && t[t.len() - 1] == ']' {
        if t.len() == 1 {
            assert(false);
        }
        let inner = copy_range(t, 1, t.len() - 1);
        Some(trim_exec(&inner))
    } else {
        None
    }
}

fn name_assignment_exec(t: &Vec<char>) -> (r: Option<Vec<char>>)
    ensures
        opt_view(r) == name_assignment(t@),
{
    match strip_prefix_str(t, "name") {
        Some(rest) => {
            let r1 = trim_exec(&rest);
            match strip_prefix_char(&r1, '=') {
                Some(v) => {
                    let v1 = trim_exec(&v);
                    let val = trim_set_exec(&v1, CharSet::Quotes);
                    if val.len() > 0 {
                        Some(val)
                    } else {
                        None
                    }
                },
                None => None,
            }
        },
        None => None,
    }
}

fn contains_chars(sections: &Vec<Vec<char>>, x: &Vec<char>) -> (r: bool)
    ensures
        r == views(sections@).contains(x@),
{
    let mut i: usize = 0;
    while i < sections.len()
        invariant
            i <= sections.len(),
            forall|j: int| 0 <= j < i ==> sections@[j]@ != x@,
        decreases sections.len() - i,
    {
        if chars_eq(&sections[i], x) {
            assert(views(sections@)[i as int] == x@);
            return true;
        }
        i = i + 1;
    }
    assert forall|j: int| 0 <= j < views(sections@).len() implies views(sections@)[j] != x@ by {
        assert(views(sections@)[j] == sections@[j]@);
    }
    false
}

/// The `name` of a TOML manifest, read from the tables `sections`.
pub fn toml_name_exec(text: &str, sections: &Vec<Vec<char>>) -> (r: Option<String>)
    ensures
        opt_str(r) == toml_name(text@, views(sections@)),
{
    let v = crate::text::to_chars(text);
    let ls = split_lines(&v);
    let ghost all = views(ls@);
    let ghost secs = views(sections@);
    let mut cur: Vec<char> = Vec::new();
    let mut i: usize = 0;
    assert(all.skip(0) =~= all);
    assert(cur@ =~= Seq::<char>::empty());
    while i < ls.len()
        invariant
            i <= ls.len(),
            all == views(ls@),
            all == lines(v@),
            v@ == text@,
            secs == views(sections@),
            toml_name(text@, secs) == section_scan(all.skip(i as int), cur@, secs),
        decreases ls.len() - i,
    {
        let ghost rest = all.skip(i as int);
        assert(rest[0] == ls@[i as int]@);
        assert(rest.drop_first() =~= all.skip(i + 1));
        let t = trim_exec(&ls[i]);
        match section_header_exec(&t) {
            Some(h) => {
                cur = h;
            },
            None => {
                if contains_chars(sections, &cur) {
                    match name_assignment_exec(&t) {
                        Some(val) => {
                            return Some(from_chars(&val));
                        },
                        None => {},
                    }
                }
            },
        }
        i = i + 1;
    }
    None
}

/// `<tag>`.
pub open spec fn open_tag(tag: Seq<char>) -> Seq<char> {
    seq!['<'] + tag + seq!['>']
}

/// `</tag>`.
pub open spec fn close_tag(tag: Seq<char>) -> Seq<char> {
    seq!['<', '/'] + tag + seq!['>']
}

/// The trimmed text between the first `<tag>` of `text` and the first
/// `</tag>` after it, when not empty.
pub open spec fn xml_tag(text: Seq<char>, tag: Seq<char>) -> Option<Seq<char>> {
    match find(text, open_tag(tag)) {
        Some(s) => {
            let after = text.subrange(s + open_tag(tag).len(), text.len() as int);
            match find(after, close_tag(tag)) {
                Some(e) => non_empty(trim(after.subrange(0, e))),
                None => None,
            }
        },
        None => None,
    }
}

fn append_chars(out: &mut Vec<char>, x: &Vec<char>)
    ensures
        final(out)@ == old(out)@ + x@,
{
    let mut i: usize = 0;
    let ghost start = out@;
    while i < x.len()
        invariant
            i <= x.len(),
            out@ == start + x@.subrange(0, i as int),
        decreases x.len() - i,
    {
        out.push(x[i]);
        assert(x@.subrange(0, i + 1) =~= x@.subrange(0, i as int).push(x@[i as int]));
        i = i + 1;
    }
    assert(x@.subrange(0, x.len() as int) =~= x@);
}

/// The value of the first `<tag>…</tag>` element of an XML text.
pub fn extract_xml_tag(content: &str, tag: &str) -> (r: Option<String>)
    ensures
        opt_str(r) == xml_tag(content@, tag@),
{
    let text = crate::text::to_chars(content);
    let tg = crate::text::to_chars(tag);
    let mut open: Vec<char> = Vec::new();
    open.push('<');
    append_chars(&mut open, &tg);
    open.push('>');
    assert(open@ =~= open_tag(tag@));
    let mut close: Vec<char> = Vec::new();
    close.push('<');
    close.push('/');
    append_chars(&mut close, &tg);
    close.push('>');
    assert(close@ =~= close_tag(tag@));
    match find_exec(&text, &open) {
        Some(s) => {
            assert(crate::text::occurs_at(text@, open@, s as int));
            assert(open@.len() == open.len());
            assert(s + open.len() <= text.len());
            let after = copy_range(&text, s + open.len(), text.len());
            match find_exec(&after, &close) {
                Some(e) => {
                    let raw = copy_range(&after, 0, e);
                    let val = trim_exec(&raw);
                    if val.len() > 0 {
                        Some(from_chars(&val))
                    } else {
                        None
                    }
                },
                None => None,
            }
        },
        None => None,
    }
}

/// Only the `PackageId` rule can panic.
pub proof fn lemma_no_panic(ls: Seq<Seq<char>>, rule: LineRule)
    requires
        !(rule is PackageId),
    ensures
        !scan_panics(ls, rule),
    decreases ls.len(),
{
    if ls.len() > 0 {
        lemma_no_panic(ls.drop_first(), rule);
    }
}

/// The name that `rule` reads from a manifest text, for rules that cannot
/// panic.
pub fn read_name_safe(text: &str, rule: &Rule) -> (r: Option<String>)
    requires
        !(rule@ is PackageId),
    ensures
        opt_str(r) == read_name(text@, rule@),
{
    proof {
        lemma_no_panic(lines(text@), rule@);
    }
    read_name_exec(text, rule)
}

/// `extract_gradle_field`: the quoted value of the first line that begins
/// with `field`.
pub fn extract_gradle_field(content: &str, field: &str) -> (r: Option<String>)
    ensures
        opt_str(r) == read_name(content@, LineRule::GradleField(field@)),
{
    let rule = Rule::GradleField(crate::text::to_chars(field));
    read_name_safe(content, &rule)
}

} // verus!
