//! Glob-style matching of dotted Bus topics.
//!
//! A topic is a `.`-separated list of segments. In a pattern, a segment `*` matches
//! exactly one segment, and `**` as the last segment matches any remaining suffix.

use vstd::prelude::*;
use crate::text::{chars_of, chars_eq};

verus! {

// ── Specification ────────────────────────────────────────────────────────────

/// The pieces of `s` between occurrences of `sep`, as `str::split` yields them.
pub open spec fn split_spec(s: Seq<char>, sep: char) -> Seq<Seq<char>>
    decreases s.len(),
{
    if s.len() == 0 {
        seq![Seq::<char>::empty()]
    } else {
        let init = split_spec(s.drop_last(), sep);
        if s.last() == sep {
            init.push(Seq::<char>::empty())
        } else {
            init.update(init.len() - 1, init.last().push(s.last()))
        }
    }
}

/// The segments of a dotted topic.
pub open spec fn segments(s: Seq<char>) -> Seq<Seq<char>> {
    split_spec(s, '.')
}

/// The single-segment wildcard `*`.
pub open spec fn star() -> Seq<char> {
    seq!['*']
}

/// The suffix wildcard `**`.
pub open spec fn double_star() -> Seq<char> {
    seq!['*', '*']
}

/// Whether a pattern segment accepts a topic segment.
pub open spec fn segment_matches(p: Seq<char>, t: Seq<char>) -> bool {
    p == star() || p == t
}

/// Whether the first `n` segments of `pat` accept the first `n` segments of `top`.
pub open spec fn prefix_matches(pat: Seq<Seq<char>>, top: Seq<Seq<char>>, n: int) -> bool {
    forall|i: int| 0 <= i < n ==> #[trigger] segment_matches(pat[i], top[i])
}

/// Whether `pattern` accepts `topic`: they are equal, or the pattern is `**`, or
/// segment by segment each pattern segment is `*` or equal to the topic segment,
/// where a final `**` in the pattern stands for any number of trailing segments.
pub open spec fn topic_matches_spec(pattern: Seq<char>, topic: Seq<char>) -> bool {
    let p = segments(pattern);
    let t = segments(topic);
    ||| pattern == topic
    ||| pattern == double_star()
    ||| (p.last() == double_star() && t.len() >= p.len() - 1 && prefix_matches(p, t, p.len() - 1))
    ||| (p.last() != double_star() && p.len() == t.len() && prefix_matches(p, t, p.len() as int))
}

// ── Lemmas about splitting ───────────────────────────────────────────────────

/// Splitting always yields at least one piece.
pub proof fn lemma_split_nonempty(s: Seq<char>, sep: char)
    ensures
        split_spec(s, sep).len() >= 1,
    decreases s.len(),
{
    if s.len() > 0 {
        lemma_split_nonempty(s.drop_last(), sep);
    }
}

/// The pieces joined back with `sep` between them.
pub open spec fn join_spec(parts: Seq<Seq<char>>, sep: char) -> Seq<char>
    decreases parts.len(),
{
    if parts.len() <= 1 {
        if parts.len() == 0 { Seq::empty() } else { parts[0] }
    } else {
        join_spec(parts.drop_last(), sep).push(sep) + parts.last()
    }
}

/// Joining the pieces of a split gives back the text that was split.
pub proof fn lemma_join_split(s: Seq<char>, sep: char)
    ensures
        join_spec(split_spec(s, sep), sep) == s,
    decreases s.len(),
{
    if s.len() > 0 {
        let init = split_spec(s.drop_last(), sep);
        lemma_join_split(s.drop_last(), sep);
        lemma_split_nonempty(s.drop_last(), sep);
        let parts = split_spec(s, sep);
        if s.last() == sep {
            assert(parts.drop_last() =~= init);
            assert(s =~= s.drop_last().push(sep) + Seq::<char>::empty());
        } else {
            if init.len() == 1 {
                assert(parts =~= seq![init[0].push(s.last())]);
                assert(s =~= s.drop_last().push(s.last()));
            } else {
                let a = join_spec(init.drop_last(), sep).push(sep);
                assert(parts.drop_last() =~= init.drop_last());
                assert(parts.last() == init.last().push(s.last()));
                assert(join_spec(init, sep) == a + init.last());
                assert(s =~= s.drop_last().push(s.last()));
                assert((a + init.last()).push(s.last()) =~= a + init.last().push(s.last()));
                assert(join_spec(parts, sep) == a + parts.last());
            }
        }
    }
}

/// Two texts with the same pieces are the same text.
pub proof fn lemma_split_injective(a: Seq<char>, b: Seq<char>, sep: char)
    requires
        split_spec(a, sep) == split_spec(b, sep),
    ensures
        a == b,
{
    lemma_join_split(a, sep);
    lemma_join_split(b, sep);
}

// ── Implementation ───────────────────────────────────────────────────────────

/// Splits `v` at every `sep`, as `str::split` does.
pub fn split_chars(v: &[char], sep: char) -> (r: Vec<Vec<char>>)
    ensures
        r@.len() == split_spec(v@, sep).len(),
        forall|i: int| 0 <= i < r@.len() ==> #[trigger] r@[i]@ == split_spec(v@, sep)[i],
{
    let mut segs: Vec<Vec<char>> = Vec::new();
    let mut cur: Vec<char> = Vec::new();
    let mut i: usize = 0;
    assert(v@.take(0) =~= Seq::<char>::empty());
    while i < v.len()
        invariant
            i <= v@.len(),
            segs@.len() + 1 == split_spec(v@.take(i as int), sep).len(),
            forall|j: int| 0 <= j < segs@.len() ==> #[trigger] segs@[j]@ == split_spec(
                v@.take(i as int),
                sep,
            )[j],
            cur@ == split_spec(v@.take(i as int), sep).last(),
        decreases v@.len() - i,
    {
        let ghost prev = v@.take(i as int);
        let ghost next = v@.take(i + 1);
        assert(next.drop_last() =~= prev);
        proof {
            lemma_split_nonempty(prev, sep);
        }
        let c = v[i];
        if c == sep {
            segs.push(cur);
            cur = Vec::new();
        } else {
            cur.push(c);
        }
        i = i + 1;
    }
    assert(v@.take(i as int) =~= v@);
    segs.push(cur);
    segs
}

/// Whether a segment is the single character `*`.
fn is_star(seg: &[char]) -> (r: bool)
    ensures
        r == (seg@ == star()),
{
    let r = seg.len() == 1 && seg[0] == '*';
    assert(r ==> seg@ =~= star());
    r
}

/// Whether a segment is `**`.
fn is_double_star(seg: &[char]) -> (r: bool)
    ensures
        r == (seg@ == double_star()),
{
    let r = seg.len() == 2 && seg[0] == '*' && seg[1] == '*';
    assert(r ==> seg@ =~= double_star());
    r
}

/// Whether the first `n` pattern segments accept the first `n` topic segments.
fn prefix_ok(p: &Vec<Vec<char>>, t: &Vec<Vec<char>>, n: usize) -> (r: bool)
    requires
        n <= p@.len(),
        n <= t@.len(),
    ensures
        r == (forall|i: int| 0 <= i < n ==> #[trigger] segment_matches(p@[i]@, t@[i]@)),
{
    let mut i: usize = 0;
    while i < n
        invariant
            i <= n,
            n <= p@.len(),
            n <= t@.len(),
            forall|j: int| 0 <= j < i ==> #[trigger] segment_matches(p@[j]@, t@[j]@),
        decreases n - i,
    {
        if !(is_star(p[i].as_slice()) || chars_eq(p[i].as_slice(), t[i].as_slice())) {
            assert(!segment_matches(p@[i as int]@, t@[i as int]@));
            return false;
        }
        i = i + 1;
    }
    true
}

/// Relates the segment-wise check on split vectors to `prefix_matches` on their views.
proof fn lemma_prefix_link(
    p: Seq<Vec<char>>,
    t: Seq<Vec<char>>,
    ps: Seq<Seq<char>>,
    ts: Seq<Seq<char>>,
    n: int,
    ok: bool,
)
    requires
        0 <= n <= p.len(),
        n <= t.len(),
        p.len() == ps.len(),
        t.len() == ts.len(),
        forall|i: int| 0 <= i < p.len() ==> #[trigger] p[i]@ == ps[i],
        forall|i: int| 0 <= i < t.len() ==> #[trigger] t[i]@ == ts[i],
        ok == (forall|i: int| 0 <= i < n ==> #[trigger] segment_matches(p[i]@, t[i]@)),
    ensures
        ok == prefix_matches(ps, ts, n),
{
    if ok {
        assert forall|i: int| 0 <= i < n implies #[trigger] segment_matches(ps[i], ts[i]) by {
            assert(p[i]@ == ps[i]);
            assert(t[i]@ == ts[i]);
            assert(segment_matches(p[i]@, t[i]@));
        }
    } else {
        let i = choose|i: int| 0 <= i < n && !segment_matches(p[i]@, t[i]@);
        assert(p[i]@ == ps[i]);
        assert(t[i]@ == ts[i]);
        assert(!segment_matches(ps[i], ts[i]));
    }
}

/// Glob-style topic matching.
///
/// - `*`  matches exactly one segment
/// - `**` as the last segment matches any remaining suffix
pub fn topic_matches(pattern: &str, topic: &str) -> (r: bool)
    ensures
        r == topic_matches_spec(pattern@, topic@),
{
    let pv = chars_of(pattern);
    let tv = chars_of(topic);
    if chars_eq(pv.as_slice(), tv.as_slice()) || is_double_star(pv.as_slice()) {
        return true;
    }
    let p = split_chars(pv.as_slice(), '.');
    let t = split_chars(tv.as_slice(), '.');
    let ghost ps = segments(pattern@);
    let ghost ts = segments(topic@);
    proof {
        lemma_split_nonempty(pattern@, '.');
    }
    let last = p.len() - 1;
    if is_double_star(p[last].as_slice()) {
        assert(ps.last() == double_star());
        if t.len() >= last {
            let ok = prefix_ok(&p, &t, last);
            proof {
                lemma_prefix_link(p@, t@, ps, ts, last as int, ok);
            }
            ok
        } else {
            false
        }
    } else {
        assert(ps.last() != double_star());
        if p.len() == t.len() {
            let ok = prefix_ok(&p, &t, p.len());
            proof {
                lemma_prefix_link(p@, t@, ps, ts, p@.len() as int, ok);
            }
            ok
        } else {
            false
        }
    }
}

// ── Laws ─────────────────────────────────────────────────────────────────────

/// Every topic matches itself as a pattern.
pub proof fn law_topic_matches_itself(topic: Seq<char>)
    ensures
        topic_matches_spec(topic, topic),
{
}

/// The pattern `**` matches every topic.
pub proof fn law_double_star_matches_all(topic: Seq<char>)
    ensures
        topic_matches_spec(double_star(), topic),
{
}

/// A pattern without wildcard segments matches exactly the topic equal to it.
pub proof fn law_plain_pattern_matches_only_itself(pattern: Seq<char>, topic: Seq<char>)
    requires
        forall|i: int|
            0 <= i < segments(pattern).len() ==> #[trigger] segments(pattern)[i] != star()
                && segments(pattern)[i] != double_star(),
    ensures
        topic_matches_spec(pattern, topic) <==> pattern == topic,
{
    let p = segments(pattern);
    let t = segments(topic);
    lemma_split_nonempty(pattern, '.');
    if topic_matches_spec(pattern, topic) && pattern != topic {
        assert(p.last() != double_star());
        if pattern == double_star() {
            reveal_with_fuel(split_spec, 3);
            assert(seq!['*'].drop_last() =~= Seq::<char>::empty());
            assert(seq!['*', '*'].drop_last() =~= seq!['*']);
            assert(split_spec(seq!['*'], '.') =~= seq![seq!['*']]);
            assert(p.len() == 1);
            assert(p[0] =~= double_star());
        }
        assert(p.len() == t.len());
        assert forall|i: int| 0 <= i < p.len() implies p[i] == t[i] by {
            assert(segment_matches(p[i], t[i]));
        }
        assert(p =~= t);
        lemma_split_injective(pattern, topic, '.');
    }
}

/// A final `**` segment accepts every topic that starts with the pattern's other
/// segments, whatever follows them.
pub proof fn law_double_star_suffix(pattern: Seq<char>, topic: Seq<char>)
    requires
        segments(pattern).last() == double_star(),
        segments(topic).len() >= segments(pattern).len() - 1,
        forall|i: int|
            0 <= i < segments(pattern).len() - 1 ==> #[trigger] segments(pattern)[i]
                == segments(topic)[i],
    ensures
        topic_matches_spec(pattern, topic),
{
    let p = segments(pattern);
    let t = segments(topic);
    assert forall|i: int| 0 <= i < p.len() - 1 implies #[trigger] segment_matches(p[i], t[i]) by {}
}

} // verus!
