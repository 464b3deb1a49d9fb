//! Lexicographic order of strings by their characters (the order of `str`),
//! and sorted sets of strings kept in a `Vec`.
use vstd::prelude::*;
use vstd::string::*;

verus! {

/// `a` comes strictly before `b`, comparing characters by code point and a
/// proper prefix before the longer string.
pub open spec fn lex_lt(a: Seq<char>, b: Seq<char>) -> bool
    decreases a.len(),
{
    if a.len() == 0 {
        b.len() > 0
    } else if b.len() == 0 {
        false
    } else if a[0] < b[0] {
        true
    } else if a[0] > b[0] {
        false
    } else {
        lex_lt(a.drop_first(), b.drop_first())
    }
}

/// No string comes before itself.
pub proof fn lemma_lex_irreflexive(a: Seq<char>)
    ensures
        !lex_lt(a, a),
    decreases a.len(),
{
    if a.len() > 0 {
        lemma_lex_irreflexive(a.drop_first());
    }
}

/// The order is transitive.
pub proof fn lemma_lex_transitive(a: Seq<char>, b: Seq<char>, c: Seq<char>)
    requires
        lex_lt(a, b),
        lex_lt(b, c),
    ensures
        lex_lt(a, c),
    decreases a.len(),
{
    if a.len() > 0 && b.len() > 0 && c.len() > 0 {
        if a[0] == b[0] && b[0] == c[0] {
            lemma_lex_transitive(a.drop_first(), b.drop_first(), c.drop_first());
        }
    }
}

/// Two different strings are ordered one way or the other.
pub proof fn lemma_lex_total(a: Seq<char>, b: Seq<char>)
    requires
        a != b,
    ensures
        lex_lt(a, b) || lex_lt(b, a),
    decreases a.len(),
{
    if a.len() == 0 {
        assert(b.len() > 0) by {
            if b.len() == 0 {
                assert(a =~= b);
            }
        }
    } else if b.len() > 0 && a[0] == b[0] {
        if a.drop_first() == b.drop_first() {
            assert(a =~= seq![a[0]] + a.drop_first());
            assert(b =~= seq![b[0]] + b.drop_first());
        }
        lemma_lex_total(a.drop_first(), b.drop_first());
    }
}

/// Comparing from a common prefix on is comparing the suffixes.
proof fn lemma_lex_skip(a: Seq<char>, b: Seq<char>, k: int)
    requires
        0 <= k <= a.len(),
        k <= b.len(),
        a.subrange(0, k) == b.subrange(0, k),
    ensures
        lex_lt(a, b) == lex_lt(a.subrange(k, a.len() as int), b.subrange(k, b.len() as int)),
    decreases k,
{
    if k > 0 {
        assert(a[0] == a.subrange(0, k)[0]);
        assert(b[0] == b.subrange(0, k)[0]);
        assert(a.drop_first().subrange(0, k - 1) =~= b.drop_first().subrange(0, k - 1)) by {
            assert forall|i: int| 0 <= i < k - 1 implies a.drop_first()[i] == b.drop_first()[i] by {
                assert(a[i + 1] == a.subrange(0, k)[i + 1]);
                assert(b[i + 1] == b.subrange(0, k)[i + 1]);
            }
        }
        lemma_lex_skip(a.drop_first(), b.drop_first(), k - 1);
        assert(a.drop_first().subrange(k - 1, a.len() - 1) =~= a.subrange(k, a.len() as int));
        assert(b.drop_first().subrange(k - 1, b.len() - 1) =~= b.subrange(k, b.len() as int));
    } else {
        assert(a.subrange(0, a.len() as int) =~= a);
        assert(b.subrange(0, b.len() as int) =~= b);
    }
}

/// Outcome of comparing two strings.
#[derive(Clone, Copy, Debug, PartialEq, Eq, Structural)]
pub enum Comparison {
    Less,
    Equal,
    Greater,
}

/// Compares two strings character by character.
pub fn compare_str(a: &str, b: &str) -> (r: Comparison)
    ensures
        r == Comparison::Less <==> lex_lt(a@, b@),
        r == Comparison::Equal <==> a@ == b@,
        r == Comparison::Greater <==> lex_lt(b@, a@),
{
    let n = a.unicode_len();
    let m = b.unicode_len();
    let mut i: usize = 0;
    proof {
        lemma_lex_irreflexive(a@);
        lemma_lex_irreflexive(b@);
    }
    while i < n && i < m
        invariant
            n == a@.len(),
            m == b@.len(),
            i <= n,
            i <= m,
            a@.subrange(0, i as int) == b@.subrange(0, i as int),
        decreases n - i,
    {
        let x = a.get_char(i);
        let y = b.get_char(i);
        if x != y {
            proof {
                lemma_lex_skip(a@, b@, i as int);
                lemma_lex_skip(b@, a@, i as int);
                let sa = a@.subrange(i as int, n as int);
                let sb = b@.subrange(i as int, m as int);
                assert(sa[0] == x);
                assert(sb[0] == y);
                assert(a@[i as int] != b@[i as int]);
            }
            if x < y {
                return Comparison::Less;
            } else {
                return Comparison::Greater;
            }
        }
        assert(a@.subrange(0, i + 1) =~= a@.subrange(0, i as int).push(x));
        assert(b@.subrange(0, i + 1) =~= b@.subrange(0, i as int).push(y));
        i = i + 1;
    }
    proof {
        lemma_lex_skip(a@, b@, i as int);
        lemma_lex_skip(b@, a@, i as int);
    }
    if n == m {
        assert(a@ =~= a@.subrange(0, i as int));
        assert(b@ =~= b@.subrange(0, i as int));
        Comparison::Equal
    } else if n < m {
        assert(a@ != b@);
        Comparison::Less
    } else {
        assert(a@ != b@);
        Comparison::Greater
    }
}

/// The strings of `s` are in strictly increasing order.
pub open spec fn strictly_sorted(s: Seq<Seq<char>>) -> bool {
    forall|i: int, j: int| 0 <= i < j < s.len() ==> lex_lt(#[trigger] s[i], #[trigger] s[j])
}

/// The strings held by a vector.
pub open spec fn strings(v: Vec<String>) -> Seq<Seq<char>> {
    v@.map_values(|x: String| x@)
}

/// Adds `x` to a strictly sorted vector of strings, keeping it strictly sorted;
/// a string already present is not added again.
pub fn sorted_insert(v: &mut Vec<String>, x: &str)
    requires
        strictly_sorted(strings(*old(v))),
    ensures
        strictly_sorted(strings(*final(v))),
        strings(*final(v)).to_set() == strings(*old(v)).to_set().insert(x@),
{
    let n = v.len();
    let mut i: usize = 0;
    while i < n
        invariant
            n == v@.len(),
            v@ == old(v)@,
            i <= n,
            strictly_sorted(strings(*v)),
            forall|k: int| 0 <= k < i ==> lex_lt(#[trigger] strings(*v)[k], x@),
        ensures
            n == v@.len(),
            v@ == old(v)@,
            i <= n,
            forall|k: int| 0 <= k < i ==> lex_lt(#[trigger] strings(*v)[k], x@),
            i < n ==> lex_lt(x@, strings(*v)[i as int]),
        decreases n - i,
    {
        match compare_str(v[i].as_str(), x) {
            Comparison::Less => {},
            Comparison::Equal => {
                assert(strings(*v)[i as int] == x@);
                assert(strings(*v).to_set() =~= strings(*v).to_set().insert(x@));
                return;
            },
            Comparison::Greater => {
                break;
            },
        }
        i = i + 1;
    }
    let ghost before = strings(*v);
    proof {
        if i < n {
            assert(lex_lt(x@, before[i as int]));
            assert forall|k: int| i <= k < n implies lex_lt(x@, #[trigger] before[k]) by {
                if k > i {
                    lemma_lex_transitive(x@, before[i as int], before[k]);
                }
            }
        }
    }
    v.insert(i, owned_string(x));
    let ghost after = strings(*v);
    assert(after =~= before.insert(i as int, x@));
    assert forall|a: int, b: int| 0 <= a < b < after.len() implies lex_lt(
        #[trigger] after[a],
        #[trigger] after[b],
    ) by {
        if b < i {
        } else if b == i {
        } else if a < i {
            assert(lex_lt(before[a], x@));
            lemma_lex_transitive(before[a], x@, before[b - 1]);
        } else if a == i {
        } else {
        }
    }
    assert(after.to_set() =~= before.to_set().insert(x@)) by {
        assert forall|y: Seq<char>| after.to_set().contains(y) implies before.to_set().insert(
            x@,
        ).contains(y) by {
            let k = choose|k: int| 0 <= k < after.len() && after[k] == y;
            if k < i {
                assert(before[k] == y);
            } else if k > i {
                assert(before[k - 1] == y);
            }
        }
        assert forall|y: Seq<char>| before.to_set().insert(x@).contains(y) implies after.to_set().contains(
            y,
        ) by {
            if y == x@ {
                assert(after[i as int] == y);
            } else {
                let k = choose|k: int| 0 <= k < before.len() && before[k] == y;
                if k < i {
                    assert(after[k] == y);
                } else {
                    assert(after[k + 1] == y);
                }
            }
        }
    }
}

/// Copies a string slice into a new `String`.
fn owned_string(s: &str) -> (r: String)
    ensures
        r@ == s@,
{
    String::from_str(s)
}

} // verus!
