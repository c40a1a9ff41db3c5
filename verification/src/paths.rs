//! Paths as strings, with the Unix semantics of `std::path`.
//!
//! A path is held as its text. `join` is `Path::join`; comparisons go by
//! components, as `Path`'s `==`, `starts_with` and ordering do.

use vstd::prelude::*;
use crate::manifest::opt_str;
use crate::text::{chars_eq, from_chars, to_chars};

verus! {

/// `Path::join` on Unix: an absolute `seg` replaces `base`; otherwise a `/`
/// is put between them unless `base` is empty or already ends with one.
pub open spec fn join(base: Seq<char>, seg: Seq<char>) -> Seq<char> {
    if seg.len() > 0 && seg[0] == '/' {
        seg
    } else if base.len() > 0 && base.last() != '/' {
        base + seq!['/'] + seg
    } else {
        base + seg
    }
}

/// `Path::join`.
pub fn path_join(base: &str, seg: &str) -> (r: String)
    ensures
        r@ == join(base@, seg@),
{
    let b = to_chars(base);
    let s = to_chars(seg);
    let mut out: Vec<char> = Vec::new();
    if s.len() > 0 && s[0] == '/' {
        return from_chars(&s);
    }
    let mut i: usize = 0;
    while i < b.len()
        invariant
            i <= b.len(),
            out@ == b@.subrange(0, i as int),
        decreases b.len() - i,
    {
        out.push(b[i]);
        i = i + 1;
    }
    if b.len() > 0 && b[b.len() - 1] != '/' {
        out.push('/');
    }
    let ghost mid = out@;
    let mut j: usize = 0;
    while j < s.len()
        invariant
            j <= s.len(),
            out@ == mid + s@.subrange(0, j as int),
        decreases s.len() - j,
    {
        out.push(s[j]);
        j = j + 1;
    }
    assert(b@.subrange(0, b.len() as int) =~= b@);
    assert(s@.subrange(0, s.len() as int) =~= s@);
    assert(out@ =~= join(b@, s@));
    from_chars(&out)
}

/// One component of a path (`std::path::Component` on Unix).
pub enum Comp {
    Root,
    Cur,
    Parent,
    Normal(Seq<char>),
}

/// The component that a segment between separators stands for, if any.
pub open spec fn seg_comp(seg: Seq<char>) -> Seq<Comp> {
    if seg.len() == 0 || seg == seq!['.'] {
        seq![]
    } else if seg == seq!['.', '.'] {
        seq![Comp::Parent]
    } else {
        seq![Comp::Normal(seg)]
    }
}

/// Components of the rest of a path, the current segment being `cur`.
pub open spec fn comps_from(s: Seq<char>, cur: Seq<char>) -> Seq<Comp>
    decreases s.len(),
{
    if s.len() == 0 {
        seg_comp(cur)
    } else if s[0] == '/' {
        seg_comp(cur) + comps_from(s.drop_first(), seq![])
    } else {
        comps_from(s.drop_first(), cur.push(s[0]))
    }
}

/// Whether a relative path begins with a `.` component (`.` or `./...`),
/// which `Path::components` keeps.
pub open spec fn leading_cur(s: Seq<char>) -> bool {
    s.len() > 0 && s[0] == '.' && (s.len() == 1 || s[1] == '/')
}

/// `Path::components` on Unix: a root, a leading `.`, then the segments
/// between separators, with empty and interior `.` segments dropped.
pub open spec fn components(s: Seq<char>) -> Seq<Comp> {
    if s.len() > 0 && s[0] == '/' {
        seq![Comp::Root] + comps_from(s.drop_first(), seq![])
    } else if leading_cur(s) {
        seq![Comp::Cur] + comps_from(s.drop_first(), seq![])
    } else {
        comps_from(s, seq![])
    }
}

/// Whether two paths are equal as `Path`s are (by components).
pub open spec fn same_path(a: Seq<char>, b: Seq<char>) -> bool {
    components(a) == components(b)
}

/// `Path::starts_with`: the components of `base` begin those of `p`.
pub open spec fn path_starts_with(p: Seq<char>, base: Seq<char>) -> bool {
    let cp = components(p);
    let cb = components(base);
    cb.len() <= cp.len() && cp.subrange(0, cb.len() as int) == cb
}

/// `Path::file_name`: the last component, when it is a normal one.
pub open spec fn file_name(p: Seq<char>) -> Option<Seq<char>> {
    let c = components(p);
    if c.len() > 0 && c.last() is Normal {
        Some(c.last()->Normal_0)
    } else {
        None
    }
}

/// A name that `join` appends as exactly one normal component.
pub open spec fn plain_name(n: Seq<char>) -> bool {
    &&& n.len() > 0
    &&& forall|i: int| 0 <= i < n.len() ==> n[i] != '/'
    &&& n != seq!['.']
    &&& n != seq!['.', '.']
}

proof fn lemma_no_slash(n: Seq<char>, cur: Seq<char>)
    requires
        forall|i: int| 0 <= i < n.len() ==> n[i] != '/',
    ensures
        comps_from(n, cur) == seg_comp(cur + n),
    decreases n.len(),
{
    if n.len() == 0 {
        assert(cur + n =~= cur);
    } else {
        assert(n[0] != '/');
        let t = n.drop_first();
        assert forall|i: int| 0 <= i < t.len() implies t[i] != '/' by {
            assert(t[i] == n[i + 1]);
        }
        lemma_no_slash(t, cur.push(n[0]));
        assert(cur.push(n[0]) + t =~= cur + n);
    }
}

proof fn lemma_comps_trailing_slash(a: Seq<char>, cur: Seq<char>)
    ensures
        comps_from(a + seq!['/'], cur) == comps_from(a, cur),
    decreases a.len(),
{
    let x = a + seq!['/'];
    if a.len() == 0 {
        assert(x =~= seq!['/']);
        assert(x.drop_first() =~= Seq::<char>::empty());
        assert(seg_comp(Seq::<char>::empty()) =~= Seq::<Comp>::empty());
        assert(comps_from(x.drop_first(), seq![]) == seg_comp(Seq::<char>::empty()));
        assert(comps_from(x, cur) == seg_comp(cur) + comps_from(x.drop_first(), seq![]));
        assert(seg_comp(cur) + Seq::<Comp>::empty() =~= seg_comp(cur));
    } else {
        let t = a.drop_first();
        assert(x.drop_first() =~= t + seq!['/']);
        assert(x[0] == a[0]);
        if a[0] == '/' {
            lemma_comps_trailing_slash(t, seq![]);
        } else {
            lemma_comps_trailing_slash(t, cur.push(a[0]));
        }
    }
}

proof fn lemma_comps_concat(a: Seq<char>, s: Seq<char>, cur: Seq<char>)
    ensures
        comps_from(a + seq!['/'] + s, cur) == comps_from(a, cur) + comps_from(s, seq![]),
    decreases a.len(),
{
    let x = a + seq!['/'] + s;
    if a.len() == 0 {
        assert(x =~= seq!['/'] + s);
        assert(x.drop_first() =~= s);
    } else {
        let t = a.drop_first();
        assert(x.drop_first() =~= t + seq!['/'] + s);
        assert(x[0] == a[0]);
        if a[0] == '/' {
            lemma_comps_concat(t, s, seq![]);
            assert(comps_from(x, cur) =~= seg_comp(cur) + (comps_from(t, seq![]) + comps_from(s, seq![])));
        } else {
            lemma_comps_concat(t, s, cur.push(a[0]));
        }
    }
}

/// Joining a relative `s` below a non-empty `b` adds the components of `s`
/// after those of `b`.
pub proof fn lemma_join_components(b: Seq<char>, s: Seq<char>)
    requires
        b.len() > 0,
        !(s.len() > 0 && s[0] == '/'),
    ensures
        components(join(b, s)) == components(b) + comps_from(s, seq![]),
{
    let x = join(b, s);
    if b.last() != '/' {
        assert(x == b + seq!['/'] + s);
        assert(x[0] == b[0]);
        if b[0] == '/' {
            assert(x.drop_first() =~= b.drop_first() + seq!['/'] + s);
            lemma_comps_concat(b.drop_first(), s, seq![]);
        } else if leading_cur(b) {
            if b.len() == 1 {
                assert(x[1] == '/');
            } else {
                assert(x[1] == b[1]);
            }
            assert(leading_cur(x));
            assert(x.drop_first() =~= b.drop_first() + seq!['/'] + s);
            lemma_comps_concat(b.drop_first(), s, seq![]);
        } else {
            if b.len() == 1 {
                assert(x[1] == '/');
                assert(!leading_cur(x));
            } else {
                assert(x[1] == b[1]);
            }
            lemma_comps_concat(b, s, seq![]);
        }
    } else {
        let b0 = b.drop_last();
        assert(b =~= b0 + seq!['/']);
        assert(x == b + s);
        assert(x =~= b0 + seq!['/'] + s);
        assert(x[0] == b[0]);
        if b[0] == '/' {
            if b0.len() == 0 {
                assert(x.drop_first() =~= s);
                assert(b.drop_first() =~= Seq::<char>::empty());
                assert(comps_from(Seq::<char>::empty(), seq![]) =~= Seq::<Comp>::empty());
                assert(components(x) =~= components(b) + comps_from(s, seq![]));
            } else {
                assert(x.drop_first() =~= b0.drop_first() + seq!['/'] + s);
                assert(b.drop_first() =~= b0.drop_first() + seq!['/']);
                lemma_comps_concat(b0.drop_first(), s, seq![]);
                lemma_comps_trailing_slash(b0.drop_first(), seq![]);
            }
        } else if leading_cur(b) {
            assert(x[1] == b[1]);
            assert(leading_cur(x));
            if b0.len() == 1 {
                assert(x.drop_first() =~= seq!['/'] + s);
                assert(b.drop_first() =~= seq!['/']);
                lemma_comps_concat(Seq::<char>::empty(), s, seq![]);
                lemma_comps_trailing_slash(Seq::<char>::empty(), seq![]);
                assert(Seq::<char>::empty() + seq!['/'] + s =~= seq!['/'] + s);
                assert(Seq::<char>::empty() + seq!['/'] =~= seq!['/']);
            } else {
                assert(x.drop_first() =~= b0.drop_first() + seq!['/'] + s);
                assert(b.drop_first() =~= b0.drop_first() + seq!['/']);
                lemma_comps_concat(b0.drop_first(), s, seq![]);
                lemma_comps_trailing_slash(b0.drop_first(), seq![]);
            }
        } else {
            assert(x[1] == b[1]);
            lemma_comps_concat(b0, s, seq![]);
            lemma_comps_trailing_slash(b0, seq![]);
        }
    }
}

/// Whether `n` holds no `/`, character by character.
pub open spec fn slash_free(n: Seq<char>) -> bool
    decreases n.len(),
{
    n.len() == 0 || (n[0] != '/' && slash_free(n.drop_first()))
}

/// A non-empty name without `/` other than `.` and `..` is plain.
pub proof fn lemma_plain_name(n: Seq<char>)
    requires
        n.len() > 0,
        slash_free(n),
        n != seq!['.'],
        n != seq!['.', '.'],
    ensures
        plain_name(n),
{
    lemma_slash_free(n);
}

proof fn lemma_slash_free(n: Seq<char>)
    requires
        slash_free(n),
    ensures
        forall|i: int| 0 <= i < n.len() ==> n[i] != '/',
    decreases n.len(),
{
    if n.len() > 0 {
        lemma_slash_free(n.drop_first());
        assert forall|i: int| 0 <= i < n.len() implies n[i] != '/' by {
            if i > 0 {
                assert(n[i] == n.drop_first()[i - 1]);
            }
        }
    }
}

/// Joining a plain name below `b` adds exactly that name as the last
/// component.
pub proof fn lemma_join_plain(b: Seq<char>, n: Seq<char>)
    requires
        plain_name(n),
    ensures
        components(join(b, n)) == components(b).push(Comp::Normal(n)),
{
    lemma_no_slash(n, seq![]);
    assert(seq![] + n =~= n);
    if b.len() == 0 {
        assert(join(b, n) == n);
        if n.len() == 1 && n[0] == '.' {
            assert(n =~= seq!['.']);
        }
        assert(!leading_cur(n));
        assert(components(b) =~= Seq::<Comp>::empty());
        assert(components(n) == comps_from(n, seq![]));
    } else {
        lemma_join_components(b, n);
    }
}

/// A relative path joined below `b` lies below `b`.
pub proof fn lemma_join_below(b: Seq<char>, s: Seq<char>)
    requires
        !(s.len() > 0 && s[0] == '/'),
    ensures
        path_starts_with(join(b, s), b),
{
    if b.len() == 0 {
        assert(components(b) =~= Seq::<Comp>::empty());
        assert(components(join(b, s)).subrange(0, 0) =~= Seq::<Comp>::empty());
    } else {
        lemma_join_components(b, s);
        assert((components(b) + comps_from(s, seq![])).subrange(0, components(b).len() as int) =~= components(b));
    }
}

/// Lying below is transitive.
pub proof fn lemma_below_trans(p: Seq<char>, q: Seq<char>, r: Seq<char>)
    requires
        path_starts_with(p, q),
        path_starts_with(q, r),
    ensures
        path_starts_with(p, r),
{
    let cr = components(r);
    let cq = components(q);
    let cp = components(p);
    assert(cp.subrange(0, cr.len() as int) =~= cq.subrange(0, cr.len() as int)) by {
        assert forall|i: int| 0 <= i < cr.len() implies cp[i] == cq[i] by {
            assert(cp.subrange(0, cq.len() as int)[i] == cq[i]);
        }
    }
}

/// Every path lies below itself.
pub proof fn lemma_below_refl(p: Seq<char>)
    ensures
        path_starts_with(p, p),
{
    assert(components(p).subrange(0, components(p).len() as int) =~= components(p));
}

/// A component that may stand after the first: `..` or a name that is not
/// `.` or `..` and holds no `/`.
pub open spec fn inner_comp(c: Comp) -> bool {
    match c {
        Comp::Parent => true,
        Comp::Normal(n) => plain_name(n) && n != seq!['.'] && n != seq!['.', '.'],
        _ => false,
    }
}

/// Components as `Path::components` yields them: a root or a `.` only
/// first, every other component an inner one.
pub open spec fn wf_comps(cs: Seq<Comp>) -> bool {
    forall|i: int| 0 <= i < cs.len() ==> (i == 0 && (cs[i] is Root || cs[i] is Cur)) || inner_comp(#[trigger] cs[i])
}

proof fn lemma_seg_comp_inner(seg: Seq<char>)
    requires
        forall|i: int| 0 <= i < seg.len() ==> seg[i] != '/',
    ensures
        forall|i: int| 0 <= i < seg_comp(seg).len() ==> inner_comp(#[trigger] seg_comp(seg)[i]),
{
}

proof fn lemma_comps_from_inner(s: Seq<char>, cur: Seq<char>)
    requires
        forall|i: int| 0 <= i < cur.len() ==> cur[i] != '/',
    ensures
        forall|i: int| 0 <= i < comps_from(s, cur).len() ==> inner_comp(#[trigger] comps_from(s, cur)[i]),
    decreases s.len(),
{
    lemma_seg_comp_inner(cur);
    if s.len() == 0 {
        assert(comps_from(s, cur) == seg_comp(cur));
    } else {
        if s[0] == '/' {
            lemma_comps_from_inner(s.drop_first(), seq![]);
            let a = seg_comp(cur);
            let b = comps_from(s.drop_first(), seq![]);
            assert(comps_from(s, cur) == a + b);
            assert forall|i: int| 0 <= i < (a + b).len() implies inner_comp(#[trigger] (a + b)[i]) by {
                if i < a.len() {
                    assert((a + b)[i] == a[i]);
                } else {
                    assert((a + b)[i] == b[i - a.len()]);
                }
            }
        } else {
            let c2 = cur.push(s[0]);
            assert forall|i: int| 0 <= i < c2.len() implies c2[i] != '/' by {
                if i < cur.len() {
                    assert(c2[i] == cur[i]);
                }
            }
            lemma_comps_from_inner(s.drop_first(), c2);
            assert(comps_from(s, cur) == comps_from(s.drop_first(), c2));
        }
    }
}

/// `Path::components` yields well-formed components.
pub proof fn lemma_components_wf(p: Seq<char>)
    ensures
        wf_comps(components(p)),
{
    lemma_comps_from_inner(p, seq![]);
    if p.len() > 0 && (p[0] == '/' || leading_cur(p)) {
        lemma_comps_from_inner(p.drop_first(), seq![]);
        let head: Seq<Comp> = if p[0] == '/' { seq![Comp::Root] } else { seq![Comp::Cur] };
        let rest = comps_from(p.drop_first(), seq![]);
        assert forall|i: int| 0 <= i < (head + rest).len() implies (i == 0 && ((head + rest)[i] is Root
            || (head + rest)[i] is Cur)) || inner_comp(#[trigger] (head + rest)[i]) by {
            if i > 0 {
                assert((head + rest)[i] == rest[i - 1]);
            }
        }
    }
}

proof fn lemma_text_of_inner(c: Comp)
    requires
        inner_comp(c),
    ensures
        comps_from(comp_text(c), seq![]) == seq![c],
        comp_text(c).len() > 0,
        comp_text(c)[0] != '/',
        comp_text(c)[0] == '.' ==> comp_text(c).len() > 1 && comp_text(c)[1] != '/',
{
    let t = comp_text(c);
    assert forall|i: int| 0 <= i < t.len() implies t[i] != '/' by {
        if c is Parent {
            assert(t =~= seq!['.', '.']);
        }
    }
    lemma_no_slash(t, seq![]);
    assert(Seq::<char>::empty() + t =~= t);
    if c is Parent {
        assert(t =~= seq!['.', '.']);
        assert(seg_comp(t) == seq![Comp::Parent]);
    } else {
        if t.len() == 1 && t[0] == '.' {
            assert(t =~= seq!['.']);
        }
    }
}

proof fn lemma_join_comps_inner(cs: Seq<Comp>)
    requires
        forall|i: int| 0 <= i < cs.len() ==> inner_comp(#[trigger] cs[i]),
    ensures
        comps_from(join_comps(cs), seq![]) == cs,
        cs.len() > 0 ==> join_comps(cs).len() >= comp_text(cs[0]).len() && join_comps(cs).subrange(
            0,
            comp_text(cs[0]).len() as int,
        ) == comp_text(cs[0]),
    decreases cs.len(),
{
    if cs.len() == 0 {
        assert(seg_comp(Seq::<char>::empty()) =~= Seq::<Comp>::empty());
    } else if cs.len() == 1 {
        lemma_text_of_inner(cs[0]);
        assert(seq![cs[0]] =~= cs);
        assert(join_comps(cs).subrange(0, comp_text(cs[0]).len() as int) =~= comp_text(cs[0]));
    } else {
        let init = cs.drop_last();
        assert forall|i: int| 0 <= i < init.len() implies inner_comp(#[trigger] init[i]) by {
            assert(init[i] == cs[i]);
        }
        lemma_join_comps_inner(init);
        lemma_text_of_inner(cs.last());
        lemma_comps_concat(join_comps(init), comp_text(cs.last()), seq![]);
        assert(init.push(cs.last()) =~= cs);
        let j = join_comps(init);
        let t0 = comp_text(cs[0]);
        assert(init[0] == cs[0]);
        assert(join_comps(cs) == j + seq!['/'] + comp_text(cs.last()));
        assert((j + seq!['/'] + comp_text(cs.last())).subrange(0, t0.len() as int) =~= j.subrange(0, t0.len() as int));
    }
}

/// Rendering well-formed components and reading them back gives them again.
pub proof fn lemma_render_components(cs: Seq<Comp>)
    requires
        wf_comps(cs),
    ensures
        components(render(cs)) == cs,
{
    if cs.len() == 0 {
        assert(render(cs) =~= Seq::<char>::empty());
        assert(comps_from(Seq::<char>::empty(), seq![]) =~= Seq::<Comp>::empty());
    } else if cs[0] is Root || cs[0] is Cur {
        let rest = cs.drop_first();
        assert forall|i: int| 0 <= i < rest.len() implies inner_comp(#[trigger] rest[i]) by {
            assert(rest[i] == cs[i + 1]);
        }
        lemma_join_comps_inner(rest);
        if cs[0] is Root {
            let r = render(cs);
            assert(r == seq!['/'] + join_comps(rest));
            assert(r.drop_first() =~= join_comps(rest));
            assert(seq![Comp::Root] + rest =~= cs);
        } else {
            lemma_join_comps_cur(cs);
            let r = render(cs);
            assert(seq![Comp::Cur] + rest =~= cs);
            if rest.len() == 0 {
                assert(r =~= seq!['.']);
                assert(r.drop_first() =~= Seq::<char>::empty());
                assert(comps_from(Seq::<char>::empty(), seq![]) =~= Seq::<Comp>::empty());
            } else {
                assert(r == seq!['.', '/'] + join_comps(rest));
                assert(leading_cur(r));
                assert(r.drop_first() =~= seq!['/'] + join_comps(rest));
                assert((seq!['/'] + join_comps(rest)).drop_first() =~= join_comps(rest));
                assert(seg_comp(Seq::<char>::empty()) =~= Seq::<Comp>::empty());
                assert(comps_from(r.drop_first(), seq![]) == seg_comp(Seq::<char>::empty()) + comps_from(join_comps(rest), seq![]));
            }
        }
    } else {
        assert forall|i: int| 0 <= i < cs.len() implies inner_comp(#[trigger] cs[i]) by {
            assert(wf_comps(cs));
            if i == 0 {
                assert(inner_comp(cs[0]));
            }
        }
        lemma_join_comps_inner(cs);
        lemma_text_of_inner(cs[0]);
        let r = render(cs);
        let t0 = comp_text(cs[0]);
        assert(r[0] == t0[0]) by {
            assert(r.subrange(0, t0.len() as int)[0] == r[0]);
        }
        if r.len() > 1 && t0.len() > 1 {
            assert(r[1] == t0[1]) by {
                assert(r.subrange(0, t0.len() as int)[1] == r[1]);
            }
        }
        if t0.len() == 1 && r.len() > 1 {
            assert(cs.len() > 1) by {
                if cs.len() == 1 {
                    assert(r == t0);
                }
            }
            assert(r[1] == '/') by {
                lemma_join_comps_second(cs);
            }
        }
    }
}

proof fn lemma_join_comps_second(cs: Seq<Comp>)
    requires
        cs.len() > 1,
        comp_text(cs[0]).len() == 1,
    ensures
        join_comps(cs).len() > 1 && join_comps(cs)[1] == '/',
    decreases cs.len(),
{
    if cs.len() == 2 {
        assert(cs.drop_last() =~= seq![cs[0]]);
    } else {
        let init = cs.drop_last();
        assert(init[0] == cs[0]);
        lemma_join_comps_second(init);
    }
}

proof fn lemma_join_comps_cur(cs: Seq<Comp>)
    requires
        cs.len() > 0,
        cs[0] is Cur,
    ensures
        cs.len() == 1 ==> join_comps(cs) == seq!['.'],
        cs.len() > 1 ==> join_comps(cs) == seq!['.', '/'] + join_comps(cs.drop_first()),
    decreases cs.len(),
{
    if cs.len() == 2 {
        assert(cs.drop_last() =~= seq![cs[0]]);
        assert(cs.drop_first() =~= seq![cs[1]]);
        assert(join_comps(cs.drop_last()) == comp_text(cs[0]));
        assert(join_comps(cs.drop_first()) == comp_text(cs[1]));
        assert(comp_text(cs[0]) == seq!['.']);
        assert(join_comps(cs) =~= seq!['.', '/'] + join_comps(cs.drop_first()));
    } else if cs.len() > 2 {
        let init = cs.drop_last();
        assert(init[0] == cs[0]);
        lemma_join_comps_cur(init);
        assert(init.drop_first() =~= cs.drop_first().drop_last());
        assert(cs.drop_first().last() == cs.last());
        assert(join_comps(cs) =~= seq!['.', '/'] + join_comps(cs.drop_first()));
    }
}

/// A path lies below its parent.
pub proof fn lemma_below_parent(p: Seq<char>)
    ensures
        parent(p) matches Some(q) ==> path_starts_with(p, q) && components(q) == components(p).drop_last(),
{
    let c = components(p);
    if c.len() > 0 && !(c.last() is Root) {
        lemma_components_wf(p);
        let d = c.drop_last();
        assert(wf_comps(d)) by {
            assert forall|i: int| 0 <= i < d.len() implies (i == 0 && (d[i] is Root || d[i] is Cur))
                || inner_comp(#[trigger] d[i]) by {
                assert(d[i] == c[i]);
            }
        }
        lemma_render_components(d);
        assert(c.subrange(0, d.len() as int) =~= d);
    }
}

/// A path below `base`, taken relative to `base` and joined back to it, is
/// the same path: what a listing names is what the walk met.
pub proof fn lemma_relative_rejoins(p: Seq<char>, base: Seq<char>)
    requires
        path_starts_with(p, base),
        base.len() > 0,
    ensures
        same_path(join(base, relative_to(p, base)), p),
        components(relative_to(p, base)) == components(p).skip(components(base).len() as int),
{
    let cs = components(p);
    let k = components(base).len() as int;
    let ds = cs.skip(k);
    lemma_components_wf(p);
    lemma_components_wf(base);
    assert(k > 0) by {
        if components(base).len() == 0 {
            assert(base[0] == '/' || leading_cur(base) || comps_from(base, seq![]).len() == 0);
            lemma_comps_from_nonempty(base);
        }
    }
    assert forall|i: int| 0 <= i < ds.len() implies inner_comp(#[trigger] ds[i]) by {
        assert(ds[i] == cs[i + k]);
    }
    assert(wf_comps(ds));
    lemma_render_components(ds);
    lemma_join_comps_inner(ds);
    let rel = relative_to(p, base);
    if ds.len() > 0 {
        assert(!(ds[0] is Root));
        assert(rel == join_comps(ds));
        lemma_text_of_inner(ds[0]);
        assert(rel[0] == comp_text(ds[0])[0]) by {
            assert(rel.subrange(0, comp_text(ds[0]).len() as int)[0] == rel[0]);
        }
    } else {
        assert(rel =~= Seq::<char>::empty());
    }
    lemma_join_components(base, rel);
    assert(components(base) + ds =~= cs);
}

/// A non-empty path that `Path::components` reads as nothing is impossible
/// unless it is made of separators and `.` segments only.
proof fn lemma_comps_from_nonempty(s: Seq<char>)
    requires
        s.len() > 0,
        !(s[0] == '/'),
        !leading_cur(s),
    ensures
        comps_from(s, seq![]).len() > 0,
{
    lemma_first_seg(s, seq![]);
}

proof fn lemma_first_seg(s: Seq<char>, cur: Seq<char>)
    requires
        s.len() > 0 || cur.len() > 0,
        cur.len() > 0 ==> cur != seq!['.'] || (s.len() > 0 && s[0] != '/'),
        cur.len() == 0 ==> s[0] != '/' && !leading_cur(s),
    ensures
        comps_from(s, cur).len() > 0,
    decreases s.len(),
{
    if s.len() == 0 {
        assert(seg_comp(cur).len() > 0);
    } else if s[0] == '/' {
        assert(cur.len() > 0);
        assert(cur != seq!['.']);
        assert(seg_comp(cur).len() > 0);
        assert(comps_from(s, cur) == seg_comp(cur) + comps_from(s.drop_first(), seq![]));
    } else {
        let c2 = cur.push(s[0]);
        if cur.len() == 0 && s[0] == '.' {
            assert(s.len() > 1 && s[1] != '/');
            assert(s.drop_first()[0] == s[1]);
        } else if cur.len() == 0 {
            assert(c2 =~= seq![s[0]]);
            assert(c2 != seq!['.']) by {
                if c2 == seq!['.'] {
                    assert(c2[0] == '.');
                }
            }
        } else {
            assert(c2.len() > 1);
            assert(c2 != seq!['.']) by {
                if c2 == seq!['.'] {
                    assert(c2.len() == 1);
                }
            }
        }
        lemma_first_seg(s.drop_first(), c2);
        assert(comps_from(s, cur) == comps_from(s.drop_first(), c2));
    }
}

/// One component of a path, as computed.
pub enum PathComp {
    Root,
    Cur,
    Parent,
    Normal(Vec<char>),
}

impl View for PathComp {
    type V = Comp;

    open spec fn view(&self) -> Comp {
        match self {
            PathComp::Root => Comp::Root,
            PathComp::Cur => Comp::Cur,
            PathComp::Parent => Comp::Parent,
            PathComp::Normal(v) => Comp::Normal(v@),
        }
    }
}

/// The views of a sequence of computed components.
pub open spec fn comp_views(v: Seq<PathComp>) -> Seq<Comp> {
    v.map_values(|c: PathComp| c@)
}

fn push_seg(out: &mut Vec<PathComp>, cur: Vec<char>)
    ensures
        comp_views(final(out)@) == comp_views(old(out)@) + seg_comp(cur@),
{
    let ghost c = cur@;
    let ghost before = comp_views(out@);
    if cur.len() == 0 {
        assert(before + seg_comp(c) =~= before);
        return;
    }
    if cur.len() == 1 && cur[0] == '.' {
        assert(c =~= seq!['.']);
        assert(before + seg_comp(c) =~= before);
        return;
    }
    if cur.len() == 2 && cur[0] == '.' && cur[1] == '.' {
        assert(c =~= seq!['.', '.']);
        out.push(PathComp::Parent);
        assert(comp_views(out@) =~= before + seg_comp(c));
        return;
    }
    assert(c != seq!['.']) by {
        if c == seq!['.'] {
            assert(c.len() == 1 && c[0] == '.');
        }
    }
    assert(c != seq!['.', '.']) by {
        if c == seq!['.', '.'] {
            assert(c.len() == 2 && c[0] == '.' && c[1] == '.');
        }
    }
    out.push(PathComp::Normal(cur));
    assert(comp_views(out@) =~= before + seg_comp(c));
}

/// `Path::components`.
pub fn path_components(p: &str) -> (r: Vec<PathComp>)
    ensures
        comp_views(r@) == components(p@),
{
    let v = to_chars(p);
    let mut out: Vec<PathComp> = Vec::new();
    let mut i: usize = 0;
    if v.len() > 0 && v[0] == '/' {
        out.push(PathComp::Root);
        i = 1;
    } else if v.len() > 0 && v[0] == '.' && (v.len() == 1 || v[1] == '/') {
        out.push(PathComp::Cur);
        i = 1;
    }
    let mut cur: Vec<char> = Vec::new();
    proof {
        assert(v@.skip(i as int) =~= if i == 1 { v@.drop_first() } else { v@ });
        assert(comp_views(out@) =~= if i == 1 {
            if v@[0] == '/' { seq![Comp::Root] } else { seq![Comp::Cur] }
        } else {
            Seq::<Comp>::empty()
        });
        assert(cur@ =~= Seq::<char>::empty());
        assert(components(v@) =~= comp_views(out@) + comps_from(v@.skip(i as int), cur@));
    }
    while i < v.len()
        invariant
            i <= v.len(),
            components(v@) == comp_views(out@) + comps_from(v@.skip(i as int), cur@),
        decreases v.len() - i,
    {
        let ghost rest = v@.skip(i as int);
        let ghost before = comp_views(out@);
        let ghost c0 = cur@;
        assert(rest[0] == v@[i as int]);
        assert(rest.drop_first() =~= v@.skip(i + 1));
        if v[i] == '/' {
            let seg = cur;
            cur = Vec::new();
            push_seg(&mut out, seg);
            assert(cur@ =~= Seq::<char>::empty());
            assert(comp_views(out@) + comps_from(v@.skip(i + 1), cur@) =~= before + (seg_comp(
                c0,
            ) + comps_from(rest.drop_first(), seq![])));
        } else {
            cur.push(v[i]);
        }
        i = i + 1;
    }
    assert(v@.skip(i as int) =~= Seq::<char>::empty());
    push_seg(&mut out, cur);
    out
}

/// The text of one component.
pub open spec fn comp_text(c: Comp) -> Seq<char> {
    match c {
        Comp::Root => seq!['/'],
        Comp::Cur => seq!['.'],
        Comp::Parent => seq!['.', '.'],
        Comp::Normal(n) => n,
    }
}

/// The texts of components, separated by `/`.
pub open spec fn join_comps(cs: Seq<Comp>) -> Seq<char>
    decreases cs.len(),
{
    if cs.len() == 0 {
        seq![]
    } else if cs.len() == 1 {
        comp_text(cs[0])
    } else {
        join_comps(cs.drop_last()) + seq!['/'] + comp_text(cs.last())
    }
}

/// The path made of components `cs`: a root, then the others separated by
/// `/`.
pub open spec fn render(cs: Seq<Comp>) -> Seq<char> {
    if cs.len() > 0 && cs[0] is Root {
        seq!['/'] + join_comps(cs.drop_first())
    } else {
        join_comps(cs)
    }
}

/// `Path::parent`: the path without its last component; none for a root
/// or an empty path.
pub open spec fn parent(p: Seq<char>) -> Option<Seq<char>> {
    let c = components(p);
    if c.len() == 0 || c.last() is Root {
        None
    } else {
        Some(render(c.drop_last()))
    }
}

/// `Path::strip_prefix`, for a path below `base`: the components of `p`
/// after those of `base`.
pub open spec fn relative_to(p: Seq<char>, base: Seq<char>) -> Seq<char> {
    render(components(p).skip(components(base).len() as int))
}

fn push_text(out: &mut Vec<char>, c: &PathComp)
    ensures
        final(out)@ == old(out)@ + comp_text(c@),
{
    match c {
        PathComp::Root => {
            out.push('/');
        },
        PathComp::Cur => {
            out.push('.');
        },
        PathComp::Parent => {
            out.push('.');
            out.push('.');
        },
        PathComp::Normal(n) => {
            let ghost start = out@;
            let mut i: usize = 0;
            while i < n.len()
                invariant
                    i <= n.len(),
                    out@ == start + n@.subrange(0, i as int),
                decreases n.len() - i,
            {
                out.push(n[i]);
                i = i + 1;
            }
            assert(n@.subrange(0, n.len() as int) =~= n@);
        },
    }
    assert(final(out)@ =~= old(out)@ + comp_text(c@));
}

/// The path made of the components of `cs` from index `from` on.
pub fn render_exec(cs: &Vec<PathComp>, from: usize) -> (r: String)
    requires
        from <= cs.len(),
    ensures
        r@ == render(comp_views(cs@).skip(from as int)),
{
    let ghost all = comp_views(cs@).skip(from as int);
    let mut out: Vec<char> = Vec::new();
    let mut i: usize = from;
    let mut start: usize = from;
    if from < cs.len() {
        match &cs[from] {
            PathComp::Root => {
                out.push('/');
                start = from + 1;
                i = from + 1;
            },
            _ => {},
        }
    }
    let ghost body = comp_views(cs@).skip(start as int);
    assert(render(all) == out@ + join_comps(body)) by {
        if from < cs.len() && all[0] is Root {
            assert(all.drop_first() =~= body);
        } else {
            assert(body =~= all);
            assert(out@ =~= Seq::<char>::empty());
            assert(out@ + join_comps(body) =~= join_comps(body));
        }
    }
    let ghost prefix = out@;
    while i < cs.len()
        invariant
            start <= i <= cs.len(),
            body == comp_views(cs@).skip(start as int),
            render(all) == prefix + join_comps(body),
            out@ == prefix + join_comps(body.subrange(0, i - start)),
        decreases cs.len() - i,
    {
        let ghost done = body.subrange(0, i - start);
        let ghost next = body.subrange(0, i - start + 1);
        assert(next.drop_last() =~= done);
        assert(next.last() == cs@[i as int]@);
        if i > start {
            out.push('/');
        }
        push_text(&mut out, &cs[i]);
        if i > start {
            assert(out@ =~= prefix + join_comps(next));
        } else {
            assert(done =~= Seq::<Comp>::empty());
            assert(out@ =~= prefix + join_comps(next));
        }
        i = i + 1;
    }
    assert(body.subrange(0, cs.len() - start) =~= body);
    from_chars(&out)
}

/// `Path::parent`.
pub fn parent_exec(p: &str) -> (r: Option<String>)
    ensures
        opt_str(r) == parent(p@),
{
    let cs = path_components(p);
    let n = cs.len();
    if n == 0 {
        return None;
    }
    assert(comp_views(cs@).last() == cs@[n - 1]@);
    match &cs[n - 1] {
        PathComp::Root => {
            return None;
        },
        _ => {},
    }
    let mut head = cs;
    head.pop();
    assert(comp_views(head@) =~= comp_views(cs@).drop_last());
    let r = render_exec(&head, 0);
    assert(comp_views(head@).skip(0) =~= comp_views(head@));
    Some(r)
}

/// `p.strip_prefix(base)` for a path `p` below `base`.
pub fn relative_exec(p: &str, base: &str) -> (r: String)
    requires
        path_starts_with(p@, base@),
    ensures
        r@ == relative_to(p@, base@),
{
    let cp = path_components(p);
    let cb = path_components(base);
    render_exec(&cp, cb.len())
}

/// Whether two computed components are equal.
pub fn comp_eq(a: &PathComp, b: &PathComp) -> (r: bool)
    ensures
        r == (a@ == b@),
{
    match (a, b) {
        (PathComp::Root, PathComp::Root) => true,
        (PathComp::Cur, PathComp::Cur) => true,
        (PathComp::Parent, PathComp::Parent) => true,
        (PathComp::Normal(x), PathComp::Normal(y)) => chars_eq(x, y),
        _ => false,
    }
}

/// Whether the first `n` components of `a` and `b` agree.
pub fn comps_prefix_eq(a: &Vec<PathComp>, b: &Vec<PathComp>, n: usize) -> (r: bool)
    requires
        n <= a.len(),
        n <= b.len(),
    ensures
        r == (comp_views(a@).subrange(0, n as int) == comp_views(b@).subrange(0, n as int)),
{
    let mut i: usize = 0;
    while i < n
        invariant
            i <= n <= a.len(),
            n <= b.len(),
            forall|j: int| 0 <= j < i ==> a@[j]@ == b@[j]@,
        decreases n - i,
    {
        if !comp_eq(&a[i], &b[i]) {
            assert(comp_views(a@).subrange(0, n as int)[i as int] != comp_views(b@).subrange(
                0,
                n as int,
            )[i as int]);
            return false;
        }
        i = i + 1;
    }
    assert(comp_views(a@).subrange(0, n as int) =~= comp_views(b@).subrange(0, n as int));
    true
}

/// Whether two paths are equal as `Path`s (component by component).
pub fn same_path_exec(a: &str, b: &str) -> (r: bool)
    ensures
        r == same_path(a@, b@),
{
    let ca = path_components(a);
    let cb = path_components(b);
    if ca.len() != cb.len() {
        return false;
    }
    let r = comps_prefix_eq(&ca, &cb, ca.len());
    assert(comp_views(ca@).subrange(0, ca.len() as int) =~= comp_views(ca@));
    assert(comp_views(cb@).subrange(0, cb.len() as int) =~= comp_views(cb@));
    r
}

/// `Path::starts_with`.
pub fn starts_with_exec(p: &str, base: &str) -> (r: bool)
    ensures
        r == path_starts_with(p@, base@),
{
    let cp = path_components(p);
    let cb = path_components(base);
    if cb.len() > cp.len() {
        return false;
    }
    let r = comps_prefix_eq(&cp, &cb, cb.len());
    assert(comp_views(cb@).subrange(0, cb.len() as int) =~= comp_views(cb@));
    r
}

/// `Path::file_name`.
pub fn file_name_exec(p: &str) -> (r: Option<String>)
    ensures
        r matches Some(x) ==> file_name(p@) == Some(x@),
        r is None ==> file_name(p@) is None,
{
    let c = path_components(p);
    let n = c.len();
    if n == 0 {
        return None;
    }
    let last = &c[n - 1];
    assert(comp_views(c@).last() == c@[n - 1]@);
    match last {
        PathComp::Normal(x) => Some(from_chars(x)),
        _ => None,
    }
}

/// Index of the last `.` in a file name.
pub open spec fn last_dot(name: Seq<char>) -> Option<int>
    decreases name.len(),
{
    if name.len() == 0 {
        None
    } else if name.last() == '.' {
        Some(name.len() - 1)
    } else {
        last_dot(name.drop_last())
    }
}

/// `Path::extension` of a file name: the part after the last `.`, unless
/// that dot is the first character.
pub open spec fn extension_of(name: Seq<char>) -> Option<Seq<char>> {
    match last_dot(name) {
        Some(k) => if k > 0 {
            Some(name.subrange(k + 1, name.len() as int))
        } else {
            None
        },
        None => None,
    }
}

/// `Path::file_stem` of a file name: the part before the last `.`, unless
/// that dot is the first character.
pub open spec fn stem_of(name: Seq<char>) -> Seq<char> {
    match last_dot(name) {
        Some(k) => if k > 0 {
            name.subrange(0, k)
        } else {
            name
        },
        None => name,
    }
}

proof fn lemma_last_dot(name: Seq<char>, k: int)
    requires
        -1 <= k < name.len(),
        forall|j: int| k < j < name.len() ==> name[j] != '.',
        k >= 0 ==> name[k] == '.',
    ensures
        last_dot(name) == if k >= 0 { Some(k) } else { None::<int> },
    decreases name.len(),
{
    if name.len() > 0 && name.last() != '.' {
        let t = name.drop_last();
        assert forall|j: int| k < j < t.len() implies t[j] != '.' by {
            assert(t[j] == name[j]);
        }
        if k >= 0 {
            assert(t[k] == name[k]);
        }
        lemma_last_dot(t, k);
    }
}

/// Index of the last `.` in `v`.
pub fn last_dot_exec(v: &Vec<char>) -> (r: Option<usize>)
    ensures
        r matches Some(k) ==> last_dot(v@) == Some(k as int) && k < v.len(),
        r is None ==> last_dot(v@) is None,
{
    let mut i = v.len();
    while i > 0
        invariant
            i <= v.len(),
            forall|j: int| i <= j < v.len() ==> v@[j] != '.',
        decreases i,
    {
        if v[i - 1] == '.' {
            proof {
                lemma_last_dot(v@, i - 1);
            }
            return Some(i - 1);
        }
        i = i - 1;
    }
    proof {
        lemma_last_dot(v@, -1);
    }
    None
}

/// `Path::extension` of a file name.
pub fn extension_exec(name: &Vec<char>) -> (r: Option<Vec<char>>)
    ensures
        r matches Some(x) ==> extension_of(name@) == Some(x@),
        r is None ==> extension_of(name@) is None,
{
    match last_dot_exec(name) {
        Some(k) => if k > 0 {
            Some(crate::text::copy_range(name, k + 1, name.len()))
        } else {
            None
        },
        None => None,
    }
}

/// `Path::file_stem` of a file name.
pub fn stem_exec(name: &Vec<char>) -> (r: Vec<char>)
    ensures
        r@ == stem_of(name@),
{
    match last_dot_exec(name) {
        Some(k) => if k > 0 {
            crate::text::copy_range(name, 0, k)
        } else {
            crate::text::copy_range(name, 0, name.len())
        },
        None => crate::text::copy_range(name, 0, name.len()),
    }
}

} // verus!
