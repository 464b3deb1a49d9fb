//! Paths modelled as sequences of component names, relative to a base
//! directory (the project root, unless a function says otherwise).
use vstd::prelude::*;
use vstd::string::*;
use crate::order::{compare_str, lemma_lex_irreflexive, lemma_lex_transitive, lemma_lex_total, lex_lt, strings, Comparison};
use crate::text::{push_char, str_eq};

verus! {

/// The components of a path.
pub open spec fn path_view(p: Vec<String>) -> Seq<Seq<char>> {
    strings(p)
}

/// The paths of a list, each as its components.
pub open spec fn paths_view(ps: Vec<Vec<String>>) -> Seq<Seq<Seq<char>>> {
    ps@.map_values(|p: Vec<String>| path_view(p))
}

/// Index of the last `.` in `name`, or -1 when it holds none.
pub open spec fn last_dot(name: Seq<char>) -> int
    decreases name.len(),
{
    if name.len() == 0 {
        -1
    } else if name.last() == '.' {
        name.len() - 1
    } else {
        last_dot(name.drop_last())
    }
}

/// The stem of a file name: the whole name when it holds no `.` after its
/// first character, otherwise the part before the final `.`.
pub open spec fn spec_file_stem(name: Seq<char>) -> Seq<char> {
    if last_dot(name) <= 0 {
        name
    } else {
        name.subrange(0, last_dot(name))
    }
}

proof fn lemma_last_dot_bounds(name: Seq<char>)
    ensures
        -1 <= last_dot(name) < name.len(),
        last_dot(name) >= 0 ==> name[last_dot(name)] == '.',
    decreases name.len(),
{
    if name.len() > 0 && name.last() != '.' {
        lemma_last_dot_bounds(name.drop_last());
    }
}

/// The stem of a file name, as `Path::file_stem` gives it for a plain name.
pub fn file_stem(name: &str) -> (r: String)
    ensures
        r@ == spec_file_stem(name@),
{
    let n = name.unicode_len();
    let mut i = n;
    assert(name@.subrange(0, n as int) =~= name@);
    while i > 0
        invariant
            n == name@.len(),
            i <= n,
            last_dot(name@) == last_dot(name@.subrange(0, i as int)),
            i == 0 ==> name@.subrange(0, i as int) =~= Seq::<char>::empty(),
        ensures
            i <= n,
            last_dot(name@) == i - 1,
        decreases i,
    {
        if name.get_char(i - 1) == '.' {
            assert(name@.subrange(0, i as int).last() == '.');
            break;
        }
        assert(name@.subrange(0, i - 1) =~= name@.subrange(0, i as int).drop_last());
        i = i - 1;
    }
    if i <= 1 {
        String::from_str(name)
    } else {
        String::from_str(name.substring_char(0, i - 1))
    }
}

/// Whether two paths have the same components.
pub fn path_eq(a: &Vec<String>, b: &Vec<String>) -> (r: bool)
    ensures
        r == (path_view(*a) == path_view(*b)),
{
    if a.len() != b.len() {
        assert(path_view(*a).len() != path_view(*b).len());
        return false;
    }
    let n = a.len();
    let mut i: usize = 0;
    while i < n
        invariant
            n == a@.len(),
            n == b@.len(),
            i <= n,
            forall|k: int| 0 <= k < i ==> path_view(*a)[k] == path_view(*b)[k],
        decreases n - i,
    {
        if !str_eq(a[i].as_str(), b[i].as_str()) {
            assert(path_view(*a)[i as int] != path_view(*b)[i as int]);
            return false;
        }
        i = i + 1;
    }
    assert(path_view(*a) =~= path_view(*b));
    true
}

/// `a` comes strictly before `b` in the order of paths: component by
/// component, each compared as a string, and a proper prefix first.
pub open spec fn path_lt(a: Seq<Seq<char>>, b: Seq<Seq<char>>) -> bool
    decreases a.len(),
{
    if a.len() == 0 {
        b.len() > 0
    } else if b.len() == 0 {
        false
    } else if a[0] != b[0] {
        lex_lt(a[0], b[0])
    } else {
        path_lt(a.drop_first(), b.drop_first())
    }
}

/// No path comes before itself.
pub proof fn lemma_path_irreflexive(a: Seq<Seq<char>>)
    ensures
        !path_lt(a, a),
    decreases a.len(),
{
    if a.len() > 0 {
        lemma_path_irreflexive(a.drop_first());
    }
}

/// The order of paths is transitive.
pub proof fn lemma_path_transitive(a: Seq<Seq<char>>, b: Seq<Seq<char>>, c: Seq<Seq<char>>)
    requires
        path_lt(a, b),
        path_lt(b, c),
    ensures
        path_lt(a, c),
    decreases a.len(),
{
    if a.len() > 0 && b.len() > 0 && c.len() > 0 {
        if a[0] == b[0] && b[0] == c[0] {
            lemma_path_transitive(a.drop_first(), b.drop_first(), c.drop_first());
        } else if a[0] != b[0] && b[0] != c[0] {
            lemma_lex_transitive(a[0], b[0], c[0]);
            lemma_lex_irreflexive(a[0]);
        }
    }
}

/// Two different paths are ordered one way or the other.
pub proof fn lemma_path_total(a: Seq<Seq<char>>, b: Seq<Seq<char>>)
    requires
        a != b,
    ensures
        path_lt(a, b) || path_lt(b, a),
    decreases a.len(),
{
    if a.len() == 0 {
        assert(b.len() > 0) by {
            if b.len() == 0 {
                assert(a =~= b);
            }
        }
    } else if b.len() > 0 {
        if a[0] == b[0] {
            if a.drop_first() == b.drop_first() {
                assert(a =~= seq![a[0]] + a.drop_first());
                assert(b =~= seq![b[0]] + b.drop_first());
            }
            lemma_path_total(a.drop_first(), b.drop_first());
        } else {
            lemma_lex_total(a[0], b[0]);
        }
    }
}

/// Compares two paths in the order of paths.
pub fn compare_path(a: &Vec<String>, b: &Vec<String>) -> (r: Comparison)
    ensures
        r == Comparison::Less <==> path_lt(path_view(*a), path_view(*b)),
        r == Comparison::Equal <==> path_view(*a) == path_view(*b),
        r == Comparison::Greater <==> path_lt(path_view(*b), path_view(*a)),
{
    let ghost pa = path_view(*a);
    let ghost pb = path_view(*b);
    proof {
        lemma_path_irreflexive(pa);
        lemma_path_irreflexive(pb);
        if pa != pb {
            lemma_path_total(pa, pb);
        }
        assert(pa.skip(0) =~= pa);
        assert(pb.skip(0) =~= pb);
    }
    let n = a.len();
    let m = b.len();
    let mut i: usize = 0;
    while i < n && i < m
        invariant
            n == pa.len(),
            m == pb.len(),
            pa == path_view(*a),
            pb == path_view(*b),
            i <= n,
            i <= m,
            path_lt(pa, pb) == path_lt(pa.skip(i as int), pb.skip(i as int)),
            path_lt(pb, pa) == path_lt(pb.skip(i as int), pa.skip(i as int)),
            (pa == pb) == (pa.skip(i as int) == pb.skip(i as int)),
        decreases n - i,
    {
        let c = compare_str(a[i].as_str(), b[i].as_str());
        let ghost sa = pa.skip(i as int);
        let ghost sb = pb.skip(i as int);
        assert(sa[0] == pa[i as int]);
        assert(sb[0] == pb[i as int]);
        match c {
            Comparison::Less => {
                assert(sa != sb);
                return Comparison::Less;
            },
            Comparison::Greater => {
                assert(sa != sb);
                return Comparison::Greater;
            },
            Comparison::Equal => {
                assert(sa.drop_first() =~= pa.skip(i + 1));
                assert(sb.drop_first() =~= pb.skip(i + 1));
                assert((sa == sb) == (sa.drop_first() == sb.drop_first())) by {
                    if sa.drop_first() == sb.drop_first() {
                        assert(sa =~= seq![sa[0]] + sa.drop_first());
                        assert(sb =~= seq![sb[0]] + sb.drop_first());
                    }
                }
            },
        }
        i = i + 1;
    }
    if n == m {
        assert(pa.skip(i as int) =~= Seq::<Seq<char>>::empty());
        assert(pb.skip(i as int) =~= Seq::<Seq<char>>::empty());
        Comparison::Equal
    } else if n < m {
        assert(pa.skip(i as int).len() == 0);
        assert(pa.skip(i as int) != pb.skip(i as int));
        Comparison::Less
    } else {
        assert(pb.skip(i as int).len() == 0);
        assert(pa.skip(i as int) != pb.skip(i as int));
        Comparison::Greater
    }
}

/// Whether `p` is one of `ps`.
pub fn path_in(ps: &Vec<Vec<String>>, p: &Vec<String>) -> (r: bool)
    ensures
        r == paths_view(*ps).contains(path_view(*p)),
{
    let n = ps.len();
    let mut i: usize = 0;
    while i < n
        invariant
            n == ps@.len(),
            i <= n,
            forall|k: int| 0 <= k < i ==> paths_view(*ps)[k] != path_view(*p),
        decreases n - i,
    {
        if path_eq(&ps[i], p) {
            assert(paths_view(*ps)[i as int] == path_view(*p));
            return true;
        }
        i = i + 1;
    }
    false
}

/// Copies a path.
pub fn copy_path(p: &Vec<String>) -> (r: Vec<String>)
    ensures
        path_view(r) == path_view(*p),
{
    let mut r: Vec<String> = Vec::new();
    let n = p.len();
    let mut i: usize = 0;
    while i < n
        invariant
            n == p@.len(),
            i <= n,
            path_view(r) =~= path_view(*p).subrange(0, i as int),
        decreases n - i,
    {
        let ghost before = path_view(r);
        r.push(p[i].clone());
        assert(path_view(r) =~= before.push(path_view(*p)[i as int]));
        i = i + 1;
    }
    r
}

/// `p` joined with one more component.
pub fn join(p: &Vec<String>, name: &str) -> (r: Vec<String>)
    ensures
        path_view(r) == path_view(*p).push(name@),
{
    let mut r = copy_path(p);
    r.push(String::from_str(name));
    assert(path_view(r) =~= path_view(*p).push(name@));
    r
}

/// The first `k` components of `p`.
pub fn path_prefix(p: &Vec<String>, k: usize) -> (r: Vec<String>)
    requires
        k <= p@.len(),
    ensures
        path_view(r) == path_view(*p).subrange(0, k as int),
{
    let mut r: Vec<String> = Vec::new();
    let mut i: usize = 0;
    while i < k
        invariant
            k <= p@.len(),
            i <= k,
            path_view(r) =~= path_view(*p).subrange(0, i as int),
        decreases k - i,
    {
        let ghost before = path_view(r);
        r.push(p[i].clone());
        assert(path_view(r) =~= before.push(path_view(*p)[i as int]));
        i = i + 1;
    }
    r
}

/// `p` without its leading components `root`, when `root` leads it.
pub open spec fn spec_strip_prefix(p: Seq<Seq<char>>, root: Seq<Seq<char>>) -> Option<Seq<Seq<char>>> {
    if root.len() <= p.len() && p.subrange(0, root.len() as int) == root {
        Some(p.subrange(root.len() as int, p.len() as int))
    } else {
        None
    }
}

/// Stripping `root` from `p` gives the rest `q` with `root + q == p`, and
/// fails exactly when no such rest exists.
pub proof fn strip_prefix_rest(p: Seq<Seq<char>>, root: Seq<Seq<char>>)
    ensures
        spec_strip_prefix(p, root) matches Some(q) ==> root + q == p,
        spec_strip_prefix(p, root) is None ==> forall|q: Seq<Seq<char>>| root + q != p,
{
    if let Some(q) = spec_strip_prefix(p, root) {
        assert(root + q =~= p);
    } else {
        assert forall|q: Seq<Seq<char>>| root + q != p by {
            if root + q == p {
                assert(p.subrange(0, root.len() as int) =~= root);
            }
        }
    }
}

/// `p` without its leading components `root`, or `None` when `root` does not lead it.
pub fn strip_prefix(p: &Vec<String>, root: &Vec<String>) -> (r: Option<Vec<String>>)
    ensures
        r matches Some(q) ==> spec_strip_prefix(path_view(*p), path_view(*root)) == Some(path_view(q)),
        r is None ==> spec_strip_prefix(path_view(*p), path_view(*root)) is None,
{
    let n = p.len();
    let m = root.len();
    if m > n {
        return None;
    }
    let head = path_prefix(p, m);
    if !path_eq(&head, root) {
        return None;
    }
    let mut r: Vec<String> = Vec::new();
    let mut i: usize = m;
    while i < n
        invariant
            n == p@.len(),
            m <= i <= n,
            path_view(r) =~= path_view(*p).subrange(m as int, i as int),
        decreases n - i,
    {
        let ghost before = path_view(r);
        r.push(p[i].clone());
        assert(path_view(r) =~= before.push(path_view(*p)[i as int]));
        i = i + 1;
    }
    Some(r)
}

/// Scan state of splitting the first `n` characters of `s` at `/`: the
/// components completed so far and the component being read.
pub open spec fn split_state(s: Seq<char>, n: int) -> (Seq<Seq<char>>, Seq<char>)
    decreases n,
{
    if n <= 0 {
        (Seq::empty(), Seq::empty())
    } else {
        let (done, cur) = split_state(s, n - 1);
        if s[n - 1] == '/' {
            (if cur.len() > 0 {
                done.push(cur)
            } else {
                done
            }, Seq::empty())
        } else {
            (done, cur.push(s[n - 1]))
        }
    }
}

/// The components of a `/`-separated path; empty components are skipped.
pub open spec fn spec_split_path(s: Seq<char>) -> Seq<Seq<char>> {
    let (done, cur) = split_state(s, s.len() as int);
    if cur.len() > 0 {
        done.push(cur)
    } else {
        done
    }
}

/// Scanning the first `n` characters gives components that are non-empty
/// and hold no `/`.
proof fn lemma_split_state_clean(s: Seq<char>, n: int)
    requires
        n <= s.len(),
    ensures
        forall|k: int|
            0 <= k < split_state(s, n).0.len() ==> (#[trigger] split_state(s, n).0[k]).len() > 0
                && !split_state(s, n).0[k].contains('/'),
        !split_state(s, n).1.contains('/'),
    decreases n,
{
    if n > 0 {
        lemma_split_state_clean(s, n - 1);
        let (done, cur) = split_state(s, n - 1);
        if s[n - 1] != '/' {
            let next = cur.push(s[n - 1]);
            if next.contains('/') {
                let j = choose|j: int| 0 <= j < next.len() && next[j] == '/';
                assert(cur[j] == '/');
            }
        } else {
            assert(split_state(s, n).1 =~= Seq::<char>::empty());
        }
    }
}

/// The components of a path are non-empty and hold no `/`: empty
/// components (from `//` or a leading or trailing `/`) are dropped.
pub proof fn split_path_components(s: Seq<char>)
    ensures
        forall|k: int|
            0 <= k < spec_split_path(s).len() ==> (#[trigger] spec_split_path(s)[k]).len() > 0
                && !spec_split_path(s)[k].contains('/'),
{
    lemma_split_state_clean(s, s.len() as int);
}

/// Splits a `/`-separated path into its components.
pub fn split_path(s: &str) -> (r: Vec<String>)
    ensures
        path_view(r) == spec_split_path(s@),
{
    let n = s.unicode_len();
    let mut done: Vec<String> = Vec::new();
    let mut cur = String::new();
    let mut i: usize = 0;
    while i < n
        invariant
            n == s@.len(),
            i <= n,
            (path_view(done), cur@) == split_state(s@, i as int),
        decreases n - i,
    {
        let c = s.get_char(i);
        if c == '/' {
            if cur.unicode_len_string() > 0 {
                let ghost before = path_view(done);
                done.push(cur);
                assert(path_view(done) =~= before.push(split_state(s@, i as int).1));
            }
            cur = String::new();
        } else {
            push_char(&mut cur, c);
        }
        i = i + 1;
    }
    if cur.unicode_len_string() > 0 {
        let ghost before = path_view(done);
        done.push(cur);
        assert(path_view(done) =~= before.push(split_state(s@, n as int).1));
    }
    done
}

/// Number of characters of a `String`.
pub trait UnicodeLenString {
    fn unicode_len_string(&self) -> usize;
}

impl UnicodeLenString for String {
    fn unicode_len_string(&self) -> (r: usize)
        ensures
            r == self@.len(),
    {
        self.as_str().unicode_len()
    }
}

} // verus!
