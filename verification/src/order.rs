//! The order of paths: `Path`'s `Ord`, which compares components one by
//! one; a root before `.` before `..` before a name, and names by their
//! characters (the order of their UTF-8 bytes).

use vstd::prelude::*;
use crate::paths::{comp_views, components, path_components, Comp, PathComp};

verus! {

/// `-1`, `0` or `1` as `a` is below, equal to or above `b`, character by
/// character.
pub open spec fn chars_order(a: Seq<char>, b: Seq<char>) -> int
    decreases a.len(),
{
    if a.len() == 0 {
        if b.len() == 0 { 0 } else { -1 }
    } else if b.len() == 0 {
        1
    } else if a[0] < b[0] {
        -1
    } else if a[0] > b[0] {
        1
    } else {
        chars_order(a.drop_first(), b.drop_first())
    }
}

/// The rank of a component's kind in the order of components.
pub open spec fn comp_rank(c: Comp) -> int {
    match c {
        Comp::Root => 0,
        Comp::Cur => 1,
        Comp::Parent => 2,
        Comp::Normal(_) => 3,
    }
}

/// The order of two components.
pub open spec fn comp_order(x: Comp, y: Comp) -> int {
    if comp_rank(x) < comp_rank(y) {
        -1
    } else if comp_rank(x) > comp_rank(y) {
        1
    } else {
        match (x, y) {
            (Comp::Normal(a), Comp::Normal(b)) => chars_order(a, b),
            _ => 0,
        }
    }
}

/// The order of two sequences of components, lexicographic.
pub open spec fn comps_order(a: Seq<Comp>, b: Seq<Comp>) -> int
    decreases a.len(),
{
    if a.len() == 0 {
        if b.len() == 0 { 0 } else { -1 }
    } else if b.len() == 0 {
        1
    } else if comp_order(a[0], b[0]) != 0 {
        comp_order(a[0], b[0])
    } else {
        comps_order(a.drop_first(), b.drop_first())
    }
}

/// The order of two paths as `Path` orders them: `-1`, `0` or `1`.
pub open spec fn path_order(p: Seq<char>, q: Seq<char>) -> int {
    comps_order(components(p), components(q))
}

/// `p <= q` as paths.
pub open spec fn path_le(p: Seq<char>, q: Seq<char>) -> bool {
    path_order(p, q) <= 0
}

pub proof fn lemma_chars_order(a: Seq<char>, b: Seq<char>, c: Seq<char>)
    ensures
        chars_order(a, b) == -chars_order(b, a),
        chars_order(a, b) == 0 <==> a == b,
        -1 <= chars_order(a, b) <= 1,
        chars_order(a, b) <= 0 && chars_order(b, c) <= 0 ==> chars_order(a, c) <= 0,
        chars_order(a, b) < 0 && chars_order(b, c) <= 0 ==> chars_order(a, c) < 0,
        chars_order(a, b) <= 0 && chars_order(b, c) < 0 ==> chars_order(a, c) < 0,
    decreases a.len(),
{
    if a.len() == 0 && b.len() == 0 {
        assert(a =~= b);
    }
    if a.len() > 0 && b.len() > 0 {
        if c.len() > 0 {
            lemma_chars_order(a.drop_first(), b.drop_first(), c.drop_first());
        } else {
            lemma_chars_order(a.drop_first(), b.drop_first(), c);
        }
        if a.drop_first() == b.drop_first() && a[0] == b[0] {
            assert(a =~= seq![a[0]] + a.drop_first());
            assert(b =~= seq![b[0]] + b.drop_first());
        }
    }
}

pub proof fn lemma_comp_order(x: Comp, y: Comp, z: Comp)
    ensures
        comp_order(x, y) == -comp_order(y, x),
        comp_order(x, y) == 0 <==> x == y,
        -1 <= comp_order(x, y) <= 1,
        comp_order(x, y) <= 0 && comp_order(y, z) <= 0 ==> comp_order(x, z) <= 0,
        comp_order(x, y) < 0 && comp_order(y, z) <= 0 ==> comp_order(x, z) < 0,
        comp_order(x, y) <= 0 && comp_order(y, z) < 0 ==> comp_order(x, z) < 0,
{
    match (x, y, z) {
        (Comp::Normal(a), Comp::Normal(b), Comp::Normal(c)) => lemma_chars_order(a, b, c),
        (Comp::Normal(a), Comp::Normal(b), _) => lemma_chars_order(a, b, b),
        _ => {},
    }
}

pub proof fn lemma_comps_order(a: Seq<Comp>, b: Seq<Comp>, c: Seq<Comp>)
    ensures
        comps_order(a, b) == -comps_order(b, a),
        comps_order(a, b) == 0 <==> a == b,
        -1 <= comps_order(a, b) <= 1,
        comps_order(a, b) <= 0 && comps_order(b, c) <= 0 ==> comps_order(a, c) <= 0,
        comps_order(a, b) < 0 && comps_order(b, c) <= 0 ==> comps_order(a, c) < 0,
        comps_order(a, b) <= 0 && comps_order(b, c) < 0 ==> comps_order(a, c) < 0,
    decreases a.len(),
{
    if a.len() == 0 && b.len() == 0 {
        assert(a =~= b);
    }
    if a.len() > 0 && b.len() > 0 {
        if c.len() > 0 {
            lemma_comp_order(a[0], b[0], c[0]);
            lemma_comps_order(a.drop_first(), b.drop_first(), c.drop_first());
        } else {
            lemma_comp_order(a[0], b[0], b[0]);
            lemma_comps_order(a.drop_first(), b.drop_first(), c);
        }
        if a.drop_first() == b.drop_first() && a[0] == b[0] {
            assert(a =~= seq![a[0]] + a.drop_first());
            assert(b =~= seq![b[0]] + b.drop_first());
        }
    }
}

/// `path_le` is a total preorder: transitive and total.
pub proof fn lemma_path_le(p: Seq<char>, q: Seq<char>, r: Seq<char>)
    ensures
        path_le(p, q) || path_le(q, p),
        path_le(p, q) && path_le(q, r) ==> path_le(p, r),
        path_order(p, q) == 0 <==> components(p) == components(q),
        path_order(p, q) == -path_order(q, p),
{
    lemma_comps_order(components(p), components(q), components(r));
}

/// The order of two texts, character by character: `-1`, `0` or `1`.
pub fn chars_order_exec(a: &Vec<char>, b: &Vec<char>) -> (r: i8)
    ensures
        r as int == chars_order(a@, b@),
{
    let mut i: usize = 0;
    assert(a@.skip(0) =~= a@);
    assert(b@.skip(0) =~= b@);
    while i < a.len() && i < b.len()
        invariant
            i <= a.len(),
            i <= b.len(),
            chars_order(a@, b@) == chars_order(a@.skip(i as int), b@.skip(i as int)),
        decreases a.len() - i,
    {
        let x = a[i];
        let y = b[i];
        assert(a@.skip(i as int)[0] == x);
        assert(b@.skip(i as int)[0] == y);
        if x < y {
            return -1;
        }
        if x > y {
            return 1;
        }
        assert(a@.skip(i as int).drop_first() =~= a@.skip(i + 1));
        assert(b@.skip(i as int).drop_first() =~= b@.skip(i + 1));
        i = i + 1;
    }
    if i < a.len() {
        1
    } else if i < b.len() {
        -1
    } else {
        0
    }
}

fn comp_order_exec(x: &PathComp, y: &PathComp) -> (r: i8)
    ensures
        r as int == comp_order(x@, y@),
{
    let rx: u8 = match x {
        PathComp::Root => 0,
        PathComp::Cur => 1,
        PathComp::Parent => 2,
        PathComp::Normal(_) => 3,
    };
    let ry: u8 = match y {
        PathComp::Root => 0,
        PathComp::Cur => 1,
        PathComp::Parent => 2,
        PathComp::Normal(_) => 3,
    };
    if rx < ry {
        return -1;
    }
    if rx > ry {
        return 1;
    }
    match (x, y) {
        (PathComp::Normal(a), PathComp::Normal(b)) => chars_order_exec(a, b),
        _ => 0,
    }
}

/// The order of two paths as `Path` orders them: `-1`, `0` or `1`.
pub fn path_order_exec(p: &str, q: &str) -> (r: i8)
    ensures
        r as int == path_order(p@, q@),
{
    let a = path_components(p);
    let b = path_components(q);
    let ghost ca = comp_views(a@);
    let ghost cb = comp_views(b@);
    let mut i: usize = 0;
    assert(ca.skip(0) =~= ca);
    assert(cb.skip(0) =~= cb);
    while i < a.len() && i < b.len()
        invariant
            i <= a.len(),
            i <= b.len(),
            ca == comp_views(a@),
            cb == comp_views(b@),
            path_order(p@, q@) == comps_order(ca.skip(i as int), cb.skip(i as int)),
        decreases a.len() - i,
    {
        let c = comp_order_exec(&a[i], &b[i]);
        assert(ca.skip(i as int)[0] == a@[i as int]@);
        assert(cb.skip(i as int)[0] == b@[i as int]@);
        if c != 0 {
            return c;
        }
        assert(ca.skip(i as int).drop_first() =~= ca.skip(i + 1));
        assert(cb.skip(i as int).drop_first() =~= cb.skip(i + 1));
        i = i + 1;
    }
    if i < a.len() {
        1
    } else if i < b.len() {
        -1
    } else {
        0
    }
}

} // verus!
