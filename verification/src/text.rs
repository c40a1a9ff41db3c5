//! Character-level text primitives with exact specifications over `Seq<char>`.
//!
//! Manifest files are read as text and scanned line by line; the functions
//! here give those scans a precise meaning: trimming, prefix stripping,
//! substring search and line splitting, as `str` defines them.

use vstd::prelude::*;

verus! {

/// `String::push`: appends one character at the end of the string.
#[verifier::external_body]
fn push_char(s: &mut String, c: char)
    ensures
        final(s)@ == old(s)@.push(c),
{
    s.push(c);
}

/// Unicode `White_Space` property, which is what `char::is_whitespace` tests.
pub open spec fn is_ws(c: char) -> bool {
    let u = c as u32;
    ||| 9 <= u <= 13
    ||| u == 32
    ||| u == 0x85
    ||| u == 0xa0
    ||| u == 0x1680
    ||| 0x2000 <= u <= 0x200a
    ||| u == 0x2028
    ||| u == 0x2029
    ||| u == 0x202f
    ||| u == 0x205f
    ||| u == 0x3000
}

/// Whether `c` is white space in the sense of `char::is_whitespace`.
pub fn is_whitespace(c: char) -> (b: bool)
    ensures
        b == is_ws(c),
{
    let u = c as u32;
    (9 <= u && u <= 13) || u == 32 || u == 0x85 || u == 0xa0 || u == 0x1680 || (0x2000 <= u
        && u <= 0x200a) || u == 0x2028 || u == 0x2029 || u == 0x202f || u == 0x205f || u
        == 0x3000
}

/// What `char::is_alphanumeric` answers for `c` (the Unicode `Alphabetic`
/// and `Numeric` properties).
pub uninterp spec fn char_alphanumeric(c: char) -> bool;

/// `char::is_alphanumeric`: whether `c` is alphabetic or numeric in Unicode.
#[verifier::external_body]
fn is_alphanumeric(c: char) -> (b: bool)
    ensures
        b == char_alphanumeric(c),
{
    c.is_alphanumeric()
}

/// A set of characters that a trim removes or a scan accepts.
#[derive(Clone, Copy)]
pub enum CharSet {
    /// White space (`char::is_whitespace`).
    Whitespace,
    /// The two quote characters `'` and `"`.
    Quotes,
    /// A single character.
    Only(char),
    /// Alphanumeric characters and `_`.
    Word,
    /// Every character but one.
    Except(char),
}

impl CharSet {
    pub open spec fn has(self, c: char) -> bool {
        match self {
            CharSet::Whitespace => is_ws(c),
            CharSet::Quotes => c == '\'' || c == '"',
            CharSet::Only(x) => c == x,
            CharSet::Word => char_alphanumeric(c) || c == '_',
            CharSet::Except(x) => c != x,
        }
    }

    pub fn contains(&self, c: char) -> (b: bool)
        ensures
            b == self.has(c),
    {
        match self {
            CharSet::Whitespace => is_whitespace(c),
            CharSet::Quotes => c == '\'' || c == '"',
            CharSet::Only(x) => c == *x,
            CharSet::Word => is_alphanumeric(c) || c == '_',
            CharSet::Except(x) => c != *x,
        }
    }
}

/// Number of leading characters of `s` that lie in `cs`.
pub open spec fn lead(s: Seq<char>, cs: CharSet) -> nat
    decreases s.len(),
{
    if s.len() > 0 && cs.has(s[0]) {
        1 + lead(s.drop_first(), cs)
    } else {
        0
    }
}

/// Number of trailing characters of `s` that lie in `cs`.
pub open spec fn trail(s: Seq<char>, cs: CharSet) -> nat
    decreases s.len(),
{
    if s.len() > 0 && cs.has(s.last()) {
        1 + trail(s.drop_last(), cs)
    } else {
        0
    }
}

/// `s` without its leading characters from `cs` (`trim_start_matches`).
pub open spec fn trim_start_set(s: Seq<char>, cs: CharSet) -> Seq<char> {
    s.subrange(lead(s, cs) as int, s.len() as int)
}

/// `s` without its trailing characters from `cs` (`trim_end_matches`).
pub open spec fn trim_end_set(s: Seq<char>, cs: CharSet) -> Seq<char> {
    s.subrange(0, s.len() - trail(s, cs))
}

/// `s` without leading and trailing characters from `cs` (`trim_matches`).
pub open spec fn trim_set(s: Seq<char>, cs: CharSet) -> Seq<char> {
    trim_end_set(trim_start_set(s, cs), cs)
}

/// `str::trim`.
pub open spec fn trim(s: Seq<char>) -> Seq<char> {
    trim_set(s, CharSet::Whitespace)
}

pub proof fn lemma_lead_bound(s: Seq<char>, cs: CharSet)
    ensures
        lead(s, cs) <= s.len(),
    decreases s.len(),
{
    if s.len() > 0 && cs.has(s[0]) {
        lemma_lead_bound(s.drop_first(), cs);
    }
}

pub proof fn lemma_trail_bound(s: Seq<char>, cs: CharSet)
    ensures
        trail(s, cs) <= s.len(),
    decreases s.len(),
{
    if s.len() > 0 && cs.has(s.last()) {
        lemma_trail_bound(s.drop_last(), cs);
    }
}

/// The leading run ends exactly at the first character outside `cs`.
pub proof fn lemma_lead_at(s: Seq<char>, cs: CharSet, i: int)
    requires
        0 <= i <= s.len(),
        forall|j: int| 0 <= j < i ==> cs.has(#[trigger] s[j]),
        i == s.len() || !cs.has(s[i]),
    ensures
        lead(s, cs) == i,
    decreases i,
{
    if i > 0 {
        let t = s.drop_first();
        assert forall|j: int| 0 <= j < i - 1 implies cs.has(#[trigger] t[j]) by {
            assert(t[j] == s[j + 1]);
        }
        if i < s.len() {
            assert(t[i - 1] == s[i]);
        }
        lemma_lead_at(t, cs, i - 1);
    }
}

/// The trailing run ends exactly at the last character outside `cs`.
pub proof fn lemma_trail_at(s: Seq<char>, cs: CharSet, k: int)
    requires
        0 <= k <= s.len(),
        forall|j: int| s.len() - k <= j < s.len() ==> cs.has(#[trigger] s[j]),
        k == s.len() || !cs.has(s[s.len() - 1 - k]),
    ensures
        trail(s, cs) == k,
    decreases k,
{
    if k > 0 {
        let t = s.drop_last();
        assert forall|j: int| t.len() - (k - 1) <= j < t.len() implies cs.has(#[trigger] t[j]) by {
            assert(t[j] == s[j]);
        }
        if k < s.len() {
            assert(t[t.len() - 1 - (k - 1)] == s[s.len() - 1 - k]);
        }
        lemma_trail_at(t, cs, k - 1);
    }
}

/// The characters of `v` from `lo` up to `hi`.
pub fn copy_range(v: &Vec<char>, lo: usize, hi: usize) -> (r: Vec<char>)
    requires
        lo <= hi <= v.len(),
    ensures
        r@ == v@.subrange(lo as int, hi as int),
{
    let mut r: Vec<char> = Vec::new();
    let mut i = lo;
    while i < hi
        invariant
            lo <= i <= hi <= v.len(),
            r@ == v@.subrange(lo as int, i as int),
        decreases hi - i,
    {
        r.push(v[i]);
        i = i + 1;
    }
    r
}

/// Removes the characters of `cs` from both ends (`str::trim_matches`).
pub fn trim_set_exec(v: &Vec<char>, cs: CharSet) -> (r: Vec<char>)
    ensures
        r@ == trim_set(v@, cs),
{
    let n = v.len();
    let mut lo: usize = 0;
    while lo < n && cs.contains(v[lo])
        invariant
            lo <= n == v.len(),
            forall|j: int| 0 <= j < lo ==> cs.has(#[trigger] v@[j]),
        decreases n - lo,
    {
        lo = lo + 1;
    }
    proof {
        lemma_lead_at(v@, cs, lo as int);
    }
    let ghost s1 = v@.subrange(lo as int, n as int);
    let mut hi: usize = n;
    while hi > lo && cs.contains(v[hi - 1])
        invariant
            lo <= hi <= n == v.len(),
            s1 == v@.subrange(lo as int, n as int),
            forall|j: int| hi <= j < n ==> cs.has(#[trigger] v@[j]),
        decreases hi,
    {
        hi = hi - 1;
    }
    proof {
        let k = (n - hi) as int;
        assert forall|j: int| s1.len() - k <= j < s1.len() implies cs.has(#[trigger] s1[j]) by {
            assert(s1[j] == v@[lo + j]);
        }
        if k < s1.len() {
            assert(s1[s1.len() - 1 - k] == v@[hi - 1]);
        }
        lemma_trail_at(s1, cs, k);
        assert(trim_set(v@, cs) =~= v@.subrange(lo as int, hi as int));
    }
    copy_range(v, lo, hi)
}

/// The longest prefix of `s` made of characters from `cs`
/// (`chars().take_while(..)`).
pub open spec fn take_while(s: Seq<char>, cs: CharSet) -> Seq<char> {
    s.subrange(0, lead(s, cs) as int)
}

/// The longest prefix of `v` made of characters from `cs`.
pub fn take_while_exec(v: &Vec<char>, cs: CharSet) -> (r: Vec<char>)
    ensures
        r@ == take_while(v@, cs),
{
    let mut k: usize = 0;
    while k < v.len() && cs.contains(v[k])
        invariant
            k <= v.len(),
            forall|j: int| 0 <= j < k ==> cs.has(#[trigger] v@[j]),
        decreases v.len() - k,
    {
        k = k + 1;
    }
    proof {
        lemma_lead_at(v@, cs, k as int);
    }
    copy_range(v, 0, k)
}

/// `str::trim`.
pub fn trim_exec(v: &Vec<char>) -> (r: Vec<char>)
    ensures
        r@ == trim(v@),
{
    trim_set_exec(v, CharSet::Whitespace)
}

/// Whether `p` is a prefix of `s`.
pub open spec fn is_prefix(p: Seq<char>, s: Seq<char>) -> bool {
    p.len() <= s.len() && s.subrange(0, p.len() as int) == p
}

/// `str::strip_prefix`.
pub open spec fn strip_prefix(s: Seq<char>, p: Seq<char>) -> Option<Seq<char>> {
    if is_prefix(p, s) {
        Some(s.subrange(p.len() as int, s.len() as int))
    } else {
        None
    }
}

/// Whether `p` occurs in `s` starting at index `i`.
pub open spec fn occurs_at(s: Seq<char>, p: Seq<char>, i: int) -> bool {
    0 <= i && i + p.len() <= s.len() && s.subrange(i, i + p.len()) == p
}

/// Whether `i` is the first index at which `p` occurs in `s`.
pub open spec fn first_occurrence(s: Seq<char>, p: Seq<char>, i: int) -> bool {
    occurs_at(s, p, i) && forall|j: int| 0 <= j < i ==> !occurs_at(s, p, j)
}

/// `str::find` with a string pattern, counted in characters.
pub open spec fn find(s: Seq<char>, p: Seq<char>) -> Option<int> {
    if exists|i: int| occurs_at(s, p, i) {
        Some(choose|i: int| first_occurrence(s, p, i))
    } else {
        None
    }
}

/// Characterises `find` by the first occurrence.
pub proof fn lemma_find_first(s: Seq<char>, p: Seq<char>, i: int)
    requires
        first_occurrence(s, p, i),
    ensures
        find(s, p) == Some(i),
{
    let k = choose|k: int| first_occurrence(s, p, k);
    assert(first_occurrence(s, p, k));
    if k < i {
        assert(!occurs_at(s, p, k));
    } else if k > i {
        assert(!occurs_at(s, p, i));
    }
}

proof fn lemma_first_exists(s: Seq<char>, p: Seq<char>, i: int)
    requires
        occurs_at(s, p, i),
    ensures
        exists|k: int| first_occurrence(s, p, k),
    decreases i,
{
    if exists|j: int| 0 <= j < i && occurs_at(s, p, j) {
        let j = choose|j: int| 0 <= j < i && occurs_at(s, p, j);
        lemma_first_exists(s, p, j);
    } else {
        assert(first_occurrence(s, p, i));
    }
}

/// What `find` finds is the first occurrence.
pub proof fn lemma_find_some(s: Seq<char>, p: Seq<char>)
    ensures
        find(s, p) matches Some(k) ==> first_occurrence(s, p, k),
        find(s, p) is None ==> forall|i: int| !occurs_at(s, p, i),
{
    if exists|i: int| occurs_at(s, p, i) {
        let i0 = choose|i: int| occurs_at(s, p, i);
        lemma_first_exists(s, p, i0);
    }
}

/// Whether the characters of `v` starting at `i` spell `p`.
pub fn matches_at(v: &Vec<char>, p: &Vec<char>, i: usize) -> (b: bool)
    ensures
        b == occurs_at(v@, p@, i as int),
{
    if i > v.len() || p.len() > v.len() - i {
        return false;
    }
    let mut k: usize = 0;
    while k < p.len()
        invariant
            i + p.len() <= v.len(),
            k <= p.len(),
            forall|j: int| 0 <= j < k ==> v@[i + j] == p@[j],
        decreases p.len() - k,
    {
        if v[i + k] != p[k] {
            proof {
                assert(v@.subrange(i as int, i + p.len())[k as int] != p@[k as int]);
            }
            return false;
        }
        k = k + 1;
    }
    assert(v@.subrange(i as int, i + p.len()) =~= p@);
    true
}

/// `str::find`: index of the first occurrence of `p` in `v`.
pub fn find_exec(v: &Vec<char>, p: &Vec<char>) -> (r: Option<usize>)
    ensures
        r matches Some(i) ==> find(v@, p@) == Some(i as int) && first_occurrence(v@, p@, i as int),
        r is None ==> find(v@, p@) is None,
{
    if p.len() > v.len() {
        assert forall|i: int| !occurs_at(v@, p@, i) by {}
        return None;
    }
    if p.len() == 0 {
        assert(v@.subrange(0, 0) =~= p@);
        proof {
            lemma_find_first(v@, p@, 0);
        }
        return Some(0);
    }
    let last = v.len() - p.len();
    let mut i: usize = 0;
    while i <= last
        invariant
            last == v.len() - p.len(),
            0 < p.len() <= v.len(),
            forall|j: int| 0 <= j < i ==> !occurs_at(v@, p@, j),
        decreases last + 1 - i,
    {
        if matches_at(v, p, i) {
            proof {
                lemma_find_first(v@, p@, i as int);
            }
            return Some(i);
        }
        i = i + 1;
    }
    assert forall|j: int| !occurs_at(v@, p@, j) by {
        if 0 <= j < i {
        }
    }
    None
}

/// `str::strip_prefix`.
pub fn strip_prefix_exec(v: &Vec<char>, p: &Vec<char>) -> (r: Option<Vec<char>>)
    ensures
        r matches Some(x) ==> strip_prefix(v@, p@) == Some(x@),
        r is None ==> strip_prefix(v@, p@) is None,
{
    if matches_at(v, p, 0) {
        assert(v@.subrange(0, p@.len() as int) == p@);
        Some(copy_range(v, p.len(), v.len()))
    } else {
        None
    }
}

/// `str::strip_prefix` with a literal pattern.
pub fn strip_prefix_str(v: &Vec<char>, p: &str) -> (r: Option<Vec<char>>)
    ensures
        r matches Some(x) ==> strip_prefix(v@, p@) == Some(x@),
        r is None ==> strip_prefix(v@, p@) is None,
{
    let pv = to_chars(p);
    strip_prefix_exec(v, &pv)
}

/// `str::strip_prefix` with a character pattern.
pub fn strip_prefix_char(v: &Vec<char>, c: char) -> (r: Option<Vec<char>>)
    ensures
        r matches Some(x) ==> strip_prefix(v@, seq![c]) == Some(x@),
        r is None ==> strip_prefix(v@, seq![c]) is None,
{
    let mut pv: Vec<char> = Vec::new();
    pv.push(c);
    assert(pv@ =~= seq![c]);
    strip_prefix_exec(v, &pv)
}

/// `str::find` with a literal pattern.
pub fn find_str(v: &Vec<char>, p: &str) -> (r: Option<usize>)
    ensures
        r matches Some(i) ==> find(v@, p@) == Some(i as int) && first_occurrence(v@, p@, i as int),
        r is None ==> find(v@, p@) is None,
{
    let pv = to_chars(p);
    find_exec(v, &pv)
}

/// Whether two character vectors are equal.
pub fn chars_eq(a: &Vec<char>, b: &Vec<char>) -> (r: bool)
    ensures
        r == (a@ == b@),
{
    if a.len() != b.len() {
        return false;
    }
    let mut i: usize = 0;
    while i < a.len()
        invariant
            i <= a.len() == b.len(),
            forall|j: int| 0 <= j < i ==> a@[j] == b@[j],
        decreases a.len() - i,
    {
        if a[i] != b[i] {
            return false;
        }
        i = i + 1;
    }
    assert(a@ =~= b@);
    true
}

/// The characters of a literal.
pub fn lit(s: &str) -> (v: Vec<char>)
    ensures
        v@ == s@,
{
    to_chars(s)
}

/// Whether `s` begins with the character `c`.
pub open spec fn starts_with_char(s: Seq<char>, c: char) -> bool {
    s.len() > 0 && s[0] == c
}

/// Whether `s` ends with the character `c`.
pub open spec fn ends_with_char(s: Seq<char>, c: char) -> bool {
    s.len() > 0 && s.last() == c
}

/// Copies the characters of `s` into a vector.
pub fn to_chars(s: &str) -> (v: Vec<char>)
    ensures
        v@ == s@,
{
    let mut v: Vec<char> = Vec::new();
    let it0 = s.chars();
    proof {
        broadcast use vstd::string::group_string_axioms;
    }
    for c in it: it0
        invariant
            v@ == it.seq().take(it.index() as int),
    {
        v.push(c);
    }
    v
}

/// Builds a string from a vector of characters.
pub fn from_chars(v: &Vec<char>) -> (s: String)
    ensures
        s@ == v@,
{
    let mut s = String::new();
    let mut i: usize = 0;
    while i < v.len()
        invariant
            i <= v.len(),
            s@ == v@.subrange(0, i as int),
        decreases v.len() - i,
    {
        push_char(&mut s, v[i]);
        assert(v@.subrange(0, i + 1) =~= v@.subrange(0, i as int).push(v@[i as int]));
        i = i + 1;
    }
    assert(v@.subrange(0, v.len() as int) =~= v@);
    s
}

/// `line` without one final carriage return.
pub open spec fn strip_cr(line: Seq<char>) -> Seq<char> {
    if line.len() > 0 && line.last() == '\r' {
        line.drop_last()
    } else {
        line
    }
}

/// Lines of `s` given that the line read so far is `cur` (see `lines`).
pub open spec fn lines_from(s: Seq<char>, cur: Seq<char>) -> Seq<Seq<char>>
    decreases s.len(),
{
    if s.len() == 0 {
        if cur.len() == 0 {
            seq![]
        } else {
            seq![cur]
        }
    } else if s[0] == '\n' {
        seq![strip_cr(cur)] + lines_from(s.drop_first(), seq![])
    } else {
        lines_from(s.drop_first(), cur.push(s[0]))
    }
}

/// `str::lines`: the text split at each `\n`, a `\r` before the `\n` dropped,
/// and no empty line after a final `\n`.
pub open spec fn lines(s: Seq<char>) -> Seq<Seq<char>> {
    lines_from(s, seq![])
}

/// The views of a vector of character vectors.
pub open spec fn views(v: Seq<Vec<char>>) -> Seq<Seq<char>> {
    v.map_values(|x: Vec<char>| x@)
}

proof fn lemma_lines_skip(s: Seq<char>, i: int, cur: Seq<char>)
    requires
        0 <= i < s.len(),
    ensures
        s.skip(i)[0] == s[i],
        s.skip(i).drop_first() == s.skip(i + 1),
{
    assert(s.skip(i).drop_first() =~= s.skip(i + 1));
}

/// `str::lines`.
pub fn split_lines(v: &Vec<char>) -> (r: Vec<Vec<char>>)
    ensures
        views(r@) == lines(v@),
{
    let mut out: Vec<Vec<char>> = Vec::new();
    let mut cur: Vec<char> = Vec::new();
    let mut i: usize = 0;
    assert(v@.skip(0) =~= v@);
    while i < v.len()
        invariant
            i <= v.len(),
            lines(v@) == views(out@) + lines_from(v@.skip(i as int), cur@),
        decreases v.len() - i,
    {
        proof {
            lemma_lines_skip(v@, i as int, cur@);
        }
        let ghost rest = v@.skip(i as int);
        let ghost old_out = out@;
        let ghost old_cur = cur@;
        if v[i] == '\n' {
            let mut line = cur;
            if line.len() > 0 && line[line.len() - 1] == '\r' {
                line.pop();
            }
            assert(line@ == strip_cr(old_cur));
            out.push(line);
            assert(views(out@) =~= views(old_out) + seq![strip_cr(old_cur)]);
            cur = Vec::new();
            assert(lines_from(rest, old_cur) == seq![strip_cr(old_cur)] + lines_from(
                v@.skip(i + 1),
                seq![],
            ));
            assert(cur@ =~= Seq::<char>::empty());
            assert(views(out@) + lines_from(v@.skip(i + 1), cur@) =~= views(old_out) + (seq![
                strip_cr(old_cur)
            ] + lines_from(v@.skip(i + 1), seq![])));
        } else {
            cur.push(v[i]);
            assert(lines_from(rest, old_cur) == lines_from(v@.skip(i + 1), cur@));
        }
        i = i + 1;
    }
    assert(v@.skip(i as int) =~= Seq::<char>::empty());
    if cur.len() > 0 {
        let ghost old_out = out@;
        out.push(cur);
        assert(views(out@) =~= views(old_out) + seq![out@[out@.len() - 1]@]);
    } else {
        assert(views(out@) + Seq::<Seq<char>>::empty() =~= views(out@));
    }
    out
}

/// `a`, then `c`, then `b`.
pub fn concat_with(a: &str, c: char, b: &str) -> (r: String)
    ensures
        r@ == a@ + seq![c] + b@,
{
    let av = to_chars(a);
    let bv = to_chars(b);
    let mut out: Vec<char> = Vec::new();
    let mut i: usize = 0;
    while i < av.len()
        invariant
            i <= av.len(),
            out@ == av@.subrange(0, i as int),
        decreases av.len() - i,
    {
        out.push(av[i]);
        i = i + 1;
    }
    out.push(c);
    let ghost mid = out@;
    let mut j: usize = 0;
    while j < bv.len()
        invariant
            j <= bv.len(),
            out@ == mid + bv@.subrange(0, j as int),
        decreases bv.len() - j,
    {
        out.push(bv[j]);
        j = j + 1;
    }
    assert(av@.subrange(0, av.len() as int) =~= av@);
    assert(bv@.subrange(0, bv.len() as int) =~= bv@);
    assert(out@ =~= a@ + seq![c] + b@);
    from_chars(&out)
}

/// Appends the characters of `s`.
pub fn push_str(out: &mut Vec<char>, s: &str)
    ensures
        final(out)@ == old(out)@ + s@,
{
    let v = to_chars(s);
    let ghost start = out@;
    let mut i: usize = 0;
    while i < v.len()
        invariant
            i <= v.len(),
            out@ == start + v@.subrange(0, i as int),
        decreases v.len() - i,
    {
        out.push(v[i]);
        i = i + 1;
    }
    assert(v@.subrange(0, v.len() as int) =~= v@);
}

/// The character of a decimal digit.
pub open spec fn digit_char(d: int) -> char {
    if d == 0 { '0' }
    else if d == 1 { '1' }
    else if d == 2 { '2' }
    else if d == 3 { '3' }
    else if d == 4 { '4' }
    else if d == 5 { '5' }
    else if d == 6 { '6' }
    else if d == 7 { '7' }
    else if d == 8 { '8' }
    else { '9' }
}

/// The decimal digits of `n`, as `Display` writes an unsigned integer.
pub open spec fn dec(n: nat) -> Seq<char>
    decreases n,
{
    if n < 10 {
        seq![digit_char(n as int)]
    } else {
        dec(n / 10).push(digit_char((n % 10) as int))
    }
}

fn digit_exec(d: u64) -> (c: char)
    requires
        d < 10,
    ensures
        c == digit_char(d as int),
{
    if d == 0 { '0' }
    else if d == 1 { '1' }
    else if d == 2 { '2' }
    else if d == 3 { '3' }
    else if d == 4 { '4' }
    else if d == 5 { '5' }
    else if d == 6 { '6' }
    else if d == 7 { '7' }
    else if d == 8 { '8' }
    else { '9' }
}

/// Appends the decimal digits of `n`.
pub fn push_decimal(out: &mut Vec<char>, n: u64)
    ensures
        final(out)@ == old(out)@ + dec(n as nat),
    decreases n,
{
    if n < 10 {
        out.push(digit_exec(n));
    } else {
        push_decimal(out, n / 10);
        out.push(digit_exec(n % 10));
    }
}

} // verus!
