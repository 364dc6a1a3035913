//! Lexicographic order on strings (by code point, as `str`'s `Ord` orders them),
//! and sorted sets of strings.

use vstd::prelude::*;

verus! {

/// `a` sorts strictly before `b`.
pub open spec fn lex_lt(a: Seq<char>, b: Seq<char>) -> bool
    decreases a.len(),
{
    if a.len() == 0 {
        b.len() > 0
    } else if b.len() == 0 {
        false
    } else if a[0] != b[0] {
        a[0] < b[0]
    } else {
        lex_lt(a.drop_first(), b.drop_first())
    }
}

/// Nothing sorts before itself.
pub proof fn lemma_lex_irreflexive(a: Seq<char>)
    ensures
        !lex_lt(a, a),
    decreases a.len(),
{
    if a.len() > 0 {
        lemma_lex_irreflexive(a.drop_first());
    }
}

/// The order is transitive.
pub proof fn lemma_lex_transitive(a: Seq<char>, b: Seq<char>, c: Seq<char>)
    requires
        lex_lt(a, b),
        lex_lt(b, c),
    ensures
        lex_lt(a, c),
    decreases a.len(),
{
    if a.len() > 0 && b.len() > 0 && c.len() > 0 && a[0] == b[0] && b[0] == c[0] {
        lemma_lex_transitive(a.drop_first(), b.drop_first(), c.drop_first());
    }
}

/// Two distinct strings are ordered one way or the other, and never both ways.
pub proof fn lemma_lex_total(a: Seq<char>, b: Seq<char>)
    ensures
        a != b ==> (lex_lt(a, b) || lex_lt(b, a)),
        !(lex_lt(a, b) && lex_lt(b, a)),
    decreases a.len(),
{
    if a.len() > 0 && b.len() > 0 {
        lemma_lex_total(a.drop_first(), b.drop_first());
        if a[0] == b[0] && a != b {
            assert(a =~= seq![a[0]] + a.drop_first());
            assert(b =~= seq![b[0]] + b.drop_first());
        }
    } else if a.len() == 0 && b.len() == 0 {
        assert(a =~= b);
    }
}

/// The elements of `s` are in strictly increasing order (hence distinct).
pub open spec fn strictly_sorted(s: Seq<Seq<char>>) -> bool {
    forall|i: int, j: int| 0 <= i < j < s.len() ==> lex_lt(#[trigger] s[i], #[trigger] s[j])
}

/// Whether `a` sorts strictly before `b`.
pub fn lex_less(a: &[char], b: &[char]) -> (r: bool)
    ensures
        r == lex_lt(a@, b@),
{
    let mut i: usize = 0;
    assert(a@.skip(0) =~= a@);
    assert(b@.skip(0) =~= b@);
    while i < a.len() && i < b.len()
        invariant
            i <= a@.len(),
            i <= b@.len(),
            lex_lt(a@, b@) == lex_lt(a@.skip(i as int), b@.skip(i as int)),
        decreases a@.len() - i,
    {
        let ghost sa = a@.skip(i as int);
        let ghost sb = b@.skip(i as int);
        assert(sa[0] == a@[i as int]);
        assert(sb[0] == b@[i as int]);
        assert(sa.drop_first() =~= a@.skip(i + 1));
        assert(sb.drop_first() =~= b@.skip(i + 1));
        if a[i] != b[i] {
            return a[i] < b[i];
        }
        i = i + 1;
    }
    assert(a@.skip(i as int).len() == 0 || b@.skip(i as int).len() == 0);
    i == a.len() && i < b.len()
}


/// The texts of a vector of strings.
pub open spec fn views(v: Seq<String>) -> Seq<Seq<char>> {
    v.map_values(|s: String| s@)
}

/// Inserts `x` into the strictly sorted `v`, unless an equal string is there already.
pub fn insert_sorted_unique(v: &mut Vec<String>, x: String)
    requires
        strictly_sorted(views(old(v)@)),
    ensures
        strictly_sorted(views(final(v)@)),
        views(final(v)@).to_set() == views(old(v)@).to_set().insert(x@),
{
    let ghost old_v = views(v@);
    let xc = crate::text::chars_of(x.as_str());
    let mut i: usize = 0;
    while i < v.len()
        invariant
            i <= v@.len(),
            views(v@) == old_v,
            xc@ == x@,
            strictly_sorted(old_v),
            forall|k: int| 0 <= k < i ==> lex_lt(#[trigger] old_v[k], x@),
        ensures
            i <= v@.len(),
            views(v@) == old_v,
            forall|k: int| 0 <= k < i ==> lex_lt(#[trigger] old_v[k], x@),
            i < v@.len() ==> !lex_lt(old_v[i as int], x@),
        decreases v@.len() - i,
    {
        let vc = crate::text::chars_of(v[i].as_str());
        assert(old_v[i as int] == v@[i as int]@);
        if !lex_less(vc.as_slice(), xc.as_slice()) {
            break;
        }
        i = i + 1;
    }
    if i < v.len() {
        let vc = crate::text::chars_of(v[i].as_str());
        assert(old_v[i as int] == v@[i as int]@);
        if crate::text::chars_eq(vc.as_slice(), xc.as_slice()) {
            assert(views(v@).to_set() =~= old_v.to_set().insert(x@)) by {
                assert(old_v.contains(x@)) by {
                    assert(old_v[i as int] == x@);
                }
            }
            return;
        }
        proof {
            lemma_lex_total(old_v[i as int], x@);
            assert(lex_lt(x@, old_v[i as int]));
        }
    }
    proof {
        assert forall|k: int| i <= k < old_v.len() implies lex_lt(x@, #[trigger] old_v[k]) by {
            if k > i {
                assert(lex_lt(old_v[i as int], old_v[k]));
                lemma_lex_transitive(x@, old_v[i as int], old_v[k]);
            }
        }
    }
    v.insert(i, x);
    let ghost nv = views(v@);
    assert(nv =~= old_v.insert(i as int, x@));
    assert(strictly_sorted(nv)) by {
        assert forall|a: int, b: int| 0 <= a < b < nv.len() implies lex_lt(
            #[trigger] nv[a],
            #[trigger] nv[b],
        ) by {
            if a < i && b < i {
                assert(nv[a] == old_v[a] && nv[b] == old_v[b]);
            } else if a < i && b == i {
            } else if a < i && b > i {
                assert(nv[b] == old_v[b - 1]);
                assert(lex_lt(old_v[a], old_v[b - 1]));
            } else if a == i {
                assert(nv[b] == old_v[b - 1]);
            } else {
                assert(nv[a] == old_v[a - 1] && nv[b] == old_v[b - 1]);
            }
        }
    }
    assert(nv.to_set() =~= old_v.to_set().insert(x@)) by {
        assert forall|e| nv.to_set().contains(e) implies old_v.to_set().insert(x@).contains(e) by {
            let k = choose|k: int| 0 <= k < nv.len() && nv[k] == e;
            if k < i {
                assert(old_v[k] == e);
            } else if k > i {
                assert(old_v[k - 1] == e);
            }
        }
        assert forall|e| old_v.to_set().insert(x@).contains(e) implies nv.to_set().contains(e) by {
            if e == x@ {
                assert(nv[i as int] == e);
            } else {
                let k = choose|k: int| 0 <= k < old_v.len() && old_v[k] == e;
                if k < i {
                    assert(nv[k] == e);
                } else {
                    assert(nv[k + 1] == e);
                }
            }
        }
    }
}

} // verus!
