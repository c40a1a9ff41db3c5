//! The rule that keeps a link from watching its own output: source and
//! target may be neither the same path nor nested in one another.

use vstd::prelude::*;
use crate::model::{ErrView, LinkdError, LinkdResult};
use crate::paths::{
    comp_text, comp_views, components, inner_comp, join, join_comps, lemma_components_wf, lemma_join_plain,
    lemma_render_components, path_components, path_starts_with, plain_name, render, render_exec, same_path,
    wf_comps, Comp,
};
use crate::text::{chars_eq, ends_with_char, is_prefix, matches_at, to_chars};

verus! {

/// Refusal of a link whose source and target are the same path.
pub const SAME_PATH_MSG: &'static str = "source and target must not be the same path";

/// Refusal of a link whose source and target are nested.
pub const NESTED_MSG: &'static str = "source and target must not be nested (would cause watch loop)";

/// The path with a separator at its end.
pub open spec fn with_sep(s: Seq<char>) -> Seq<char> {
    if ends_with_char(s, '/') {
        s
    } else {
        s.push('/')
    }
}

/// Whether `inner` lies strictly below `outer`, by text.
pub open spec fn nested_in(inner: Seq<char>, outer: Seq<char>) -> bool {
    is_prefix(with_sep(outer), inner)
}

/// `p` in normal form: the text of its components, so that `.` parts and
/// repeated or trailing separators are gone (`a/./b//` is `a/b`).
pub open spec fn normalized(p: Seq<char>) -> Seq<char> {
    render(components(p))
}

/// The check on two paths already in normal form, by text.
pub open spec fn text_check(source: Seq<char>, target: Seq<char>) -> Result<(), ErrView> {
    if source == target {
        Err(ErrView::Other(SAME_PATH_MSG@))
    } else if nested_in(target, source) || nested_in(source, target) {
        Err(ErrView::Other(NESTED_MSG@))
    } else {
        Ok(())
    }
}

/// What `validate_link_paths` answers for `source` and `target`: the check
/// on both paths in normal form.
pub open spec fn link_paths_check(source: Seq<char>, target: Seq<char>) -> Result<(), ErrView> {
    text_check(normalized(source), normalized(target))
}

/// A unit result as a value of the specification.
pub open spec fn res_unit(r: LinkdResult<()>) -> Result<(), ErrView> {
    match r {
        Ok(_) => Ok(()),
        Err(e) => Err(e@),
    }
}

fn with_sep_exec(v: &Vec<char>) -> (r: Vec<char>)
    ensures
        r@ == with_sep(v@),
{
    let mut r = v.clone();
    assert(r@ == v@);
    if r.len() == 0 || r[r.len() - 1] != '/' {
        r.push('/');
    }
    r
}

/// Refuses a link whose source and target are the same path, or one of
/// which lies inside the other. Both paths are first put in normal form
/// (`normalized`), then compared as text, a separator ending the outer one.
pub fn validate_link_paths(source: &str, target: &str) -> (r: LinkdResult<()>)
    ensures
        res_unit(r) == link_paths_check(source@, target@),
{
    let sc = path_components(source);
    let tc = path_components(target);
    let sn = render_exec(&sc, 0);
    let tn = render_exec(&tc, 0);
    proof {
        assert(comp_views(sc@).skip(0) =~= comp_views(sc@));
        assert(comp_views(tc@).skip(0) =~= comp_views(tc@));
    }
    let src = to_chars(sn.as_str());
    let tgt = to_chars(tn.as_str());
    if chars_eq(&src, &tgt) {
        return Err(LinkdError::Other(SAME_PATH_MSG.to_owned()));
    }
    let src_prefix = with_sep_exec(&src);
    let tgt_prefix = with_sep_exec(&tgt);
    let below_source = matches_at(&tgt, &src_prefix, 0);
    let below_target = matches_at(&src, &tgt_prefix, 0);
    proof {
        assert(below_source == nested_in(tgt@, src@));
        assert(below_target == nested_in(src@, tgt@));
    }
    if below_source || below_target {
        return Err(LinkdError::Other(NESTED_MSG.to_owned()));
    }
    Ok(())
}

/// The text of a component that may follow others is not empty and does
/// not end in a separator.
proof fn lemma_text_end(c: Comp)
    requires
        !(c is Root),
        c is Normal ==> inner_comp(c),
    ensures
        comp_text(c).len() > 0,
        comp_text(c).last() != '/',
{
    match c {
        Comp::Normal(n) => {
            assert(n[n.len() - 1] != '/');
        },
        _ => {},
    }
}

/// The text of components ends with the text of the last one.
proof fn lemma_join_comps_end(cs: Seq<Comp>)
    requires
        cs.len() > 0,
        comp_text(cs.last()).len() > 0,
    ensures
        join_comps(cs).len() > 0,
        join_comps(cs).last() == comp_text(cs.last()).last(),
{
    if cs.len() > 1 {
        let a = join_comps(cs.drop_last()) + seq!['/'];
        assert(join_comps(cs) == a + comp_text(cs.last()));
    }
}

/// Adding a component to a path adds a separator, unless the path already
/// ends in one, then the component's text.
proof fn lemma_render_push(cs: Seq<Comp>, x: Comp)
    requires
        cs.len() > 0,
        wf_comps(cs),
        !(x is Root),
    ensures
        render(cs.push(x)) == with_sep(render(cs)) + comp_text(x),
{
    let ys = cs.push(x);
    assert(ys[0] == cs[0]);
    if cs[0] is Root {
        let rest = cs.drop_first();
        assert(ys.drop_first() =~= rest.push(x));
        if rest.len() == 0 {
            assert(render(cs) =~= seq!['/']);
            assert(rest.push(x) =~= seq![x]);
            assert(join_comps(seq![x]) == comp_text(x));
            assert(render(ys) =~= seq!['/'] + comp_text(x));
        } else {
            assert(rest.push(x).drop_last() =~= rest);
            assert(join_comps(rest.push(x)) == join_comps(rest) + seq!['/'] + comp_text(x));
            assert(inner_comp(cs[cs.len() - 1]));
            assert(rest.last() == cs.last());
            lemma_text_end(rest.last());
            lemma_join_comps_end(rest);
            let r = render(cs);
            assert(r == seq!['/'] + join_comps(rest));
            assert(r.last() == join_comps(rest).last());
            assert(with_sep(r) == r.push('/'));
            assert(render(ys) =~= r.push('/') + comp_text(x));
        }
    } else {
        assert(ys.drop_last() =~= cs);
        assert(join_comps(ys) == join_comps(cs) + seq!['/'] + comp_text(x));
        assert(cs.last() == cs[cs.len() - 1]);
        assert(cs[cs.len() - 1] is Cur || inner_comp(cs[cs.len() - 1]));
        lemma_text_end(cs.last());
        lemma_join_comps_end(cs);
        assert(with_sep(render(cs)) == render(cs).push('/'));
        assert(render(ys) =~= render(cs).push('/') + comp_text(x));
    }
}

/// The normal form of a path begins with that of each of its proper
/// ancestors, followed by a separator.
proof fn lemma_render_prefix(cs: Seq<Comp>, k: int)
    requires
        wf_comps(cs),
        1 <= k < cs.len(),
    ensures
        is_prefix(with_sep(render(cs.subrange(0, k))), render(cs)),
    decreases cs.len(),
{
    let init = cs.drop_last();
    assert(wf_comps(init)) by {
        assert forall|i: int| 0 <= i < init.len() implies (i == 0 && (init[i] is Root || init[i] is Cur))
            || inner_comp(#[trigger] init[i]) by {
            assert(init[i] == cs[i]);
        }
    }
    assert(init.push(cs.last()) =~= cs);
    assert(!(cs.last() is Root)) by {
        assert(cs.last() == cs[cs.len() - 1]);
    }
    lemma_render_push(init, cs.last());
    let whole = render(cs);
    let w = with_sep(render(init));
    assert(is_prefix(w, whole)) by {
        assert(whole.subrange(0, w.len() as int) =~= w);
    }
    if k == cs.len() - 1 {
        assert(cs.subrange(0, k) =~= init);
    } else {
        lemma_render_prefix(init, k);
        assert(init.subrange(0, k) =~= cs.subrange(0, k));
        let p = with_sep(render(cs.subrange(0, k)));
        let ri = render(init);
        assert(is_prefix(ri, w)) by {
            assert(w.subrange(0, ri.len() as int) =~= ri);
        }
        assert(whole.subrange(0, p.len() as int) =~= p) by {
            assert forall|i: int| 0 <= i < p.len() implies whole.subrange(0, p.len() as int)[i] == p[i] by {
                assert(ri.subrange(0, p.len() as int)[i] == p[i]);
                assert(w[i] == ri[i]);
                assert(whole[i] == w[i]);
            }
        }
    }
}

/// Two paths are refused as the same exactly when they have the same
/// components.
pub proof fn lemma_same_path_refused(s: Seq<char>, t: Seq<char>)
    ensures
        link_paths_check(s, t) == Err::<(), ErrView>(ErrView::Other(SAME_PATH_MSG@)) <==> same_path(s, t),
{
    reveal_strlit("source and target must not be the same path");
    reveal_strlit("source and target must not be nested (would cause watch loop)");
    assert(SAME_PATH_MSG@.len() != NESTED_MSG@.len());
    lemma_components_wf(s);
    lemma_components_wf(t);
    lemma_render_components(components(s));
    lemma_render_components(components(t));
}

/// A path strictly below another is refused as nested, whichever of the
/// two is the source, however either is written (`/w/./foo/x` lies below
/// `/w/foo`).
pub proof fn lemma_nested_refused(outer: Seq<char>, inner: Seq<char>)
    requires
        components(outer).len() > 0,
        path_starts_with(inner, outer),
        !same_path(inner, outer),
    ensures
        link_paths_check(outer, inner) == Err::<(), ErrView>(ErrView::Other(NESTED_MSG@)),
        link_paths_check(inner, outer) == Err::<(), ErrView>(ErrView::Other(NESTED_MSG@)),
{
    let co = components(outer);
    let ci = components(inner);
    lemma_components_wf(outer);
    lemma_components_wf(inner);
    lemma_render_components(co);
    lemma_render_components(ci);
    assert(ci.len() > co.len()) by {
        if ci.len() == co.len() {
            assert(ci =~= ci.subrange(0, co.len() as int));
        }
    }
    lemma_render_prefix(ci, co.len() as int);
    assert(normalized(inner) != normalized(outer));
    assert(nested_in(normalized(inner), normalized(outer)));
}

/// The check does not depend on which of the two paths is the source.
pub proof fn lemma_check_symmetric(a: Seq<char>, b: Seq<char>)
    ensures
        link_paths_check(a, b) == link_paths_check(b, a),
{
}

/// A name joined below a directory is refused as a target of that
/// directory, and the directory as a target of it: they are nested.
pub proof fn lemma_child_refused(dir: Seq<char>, name: Seq<char>)
    requires
        components(dir).len() > 0,
        plain_name(name),
    ensures
        link_paths_check(dir, join(dir, name)) == Err::<(), ErrView>(ErrView::Other(NESTED_MSG@)),
        link_paths_check(join(dir, name), dir) == Err::<(), ErrView>(ErrView::Other(NESTED_MSG@)),
{
    lemma_join_plain(dir, name);
    let cd = components(dir);
    let cc = components(join(dir, name));
    assert(cc.subrange(0, cd.len() as int) =~= cd);
    assert(cc.len() != cd.len());
    lemma_nested_refused(dir, join(dir, name));
}

/// Two distinct names joined below the same directory are never refused
/// as nested: siblings may be linked.
pub proof fn lemma_siblings_allowed(dir: Seq<char>, a: Seq<char>, b: Seq<char>)
    requires
        components(dir).len() > 0,
        plain_name(a),
        plain_name(b),
        a != b,
    ensures
        link_paths_check(join(dir, a), join(dir, b)) == Ok::<(), ErrView>(()),
{
    let cd = components(dir);
    lemma_join_plain(dir, a);
    lemma_join_plain(dir, b);
    lemma_components_wf(dir);
    lemma_render_push(cd, Comp::Normal(a));
    lemma_render_push(cd, Comp::Normal(b));
    let d = with_sep(normalized(dir));
    let pa = normalized(join(dir, a));
    let pb = normalized(join(dir, b));
    assert(pa == d + a);
    assert(pb == d + b);
    if pa == pb {
        assert(a =~= pa.subrange(d.len() as int, pa.len() as int));
        assert(b =~= pb.subrange(d.len() as int, pb.len() as int));
    }
    assert(!a.contains('/'));
    assert(!b.contains('/'));
    lemma_no_nest(d, a, b);
    lemma_no_nest(d, b, a);
}

proof fn lemma_no_nest(d: Seq<char>, a: Seq<char>, b: Seq<char>)
    requires
        a.len() > 0,
        b.len() > 0,
        !a.contains('/'),
        !b.contains('/'),
        a != b,
    ensures
        !nested_in(d + b, d + a),
{
    let pa = d + a;
    let pb = d + b;
    assert(pa.last() == a.last());
    assert(pa.last() != '/') by {
        assert(a[a.len() - 1] == a.last());
    }
    assert(with_sep(pa) == pa.push('/'));
    if nested_in(pb, pa) {
        let k: int = (d.len() + a.len()) as int;
        assert(pb.subrange(0, k + 1) == pa.push('/'));
        assert(pb.subrange(0, k + 1)[k] == pb[k]);
        assert(pa.push('/')[k] == '/');
        assert(pb[k] == '/');
        assert(b[a.len() as int] == pb[k]);
        assert(b.contains('/'));
    }
}

} // verus!
