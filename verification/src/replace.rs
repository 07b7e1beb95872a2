//! Literal substring replacement: the mechanism the rename engine applies to
//! every artifact's content. Replacement is non-overlapping and proceeds
//! left to right, always taking the leftmost match next.

use vstd::prelude::*;
use vstd::string::*;

use crate::text::{chars_to_string, str_to_chars};

verus! {

/// True when pattern `p` occurs in `s` starting at index `i`.
pub open spec fn matches_at(s: Seq<char>, p: Seq<char>, i: int) -> bool {
    0 <= i && i + p.len() <= s.len() && s.subrange(i, i + p.len()) == p
}

/// True when pattern `p` occurs somewhere in `s`.
pub open spec fn occurs(s: Seq<char>, p: Seq<char>) -> bool {
    exists|i: int| matches_at(s, p, i)
}

/// True when `p` is a prefix of `s`.
pub open spec fn is_prefix(p: Seq<char>, s: Seq<char>) -> bool {
    p.len() <= s.len() && s.subrange(0, p.len() as int) == p
}

/// The result of replacing every occurrence of `from` in `s` by `to`,
/// non-overlapping, leftmost first. A pattern that is empty or longer than
/// the remaining text replaces nothing.
pub open spec fn replace_seq(s: Seq<char>, from: Seq<char>, to: Seq<char>) -> Seq<char>
    decreases s.len(),
{
    if from.len() == 0 || s.len() < from.len() {
        s
    } else if is_prefix(from, s) {
        to + replace_seq(s.skip(from.len() as int), from, to)
    } else {
        s.take(1) + replace_seq(s.skip(1), from, to)
    }
}

/// The result of applying a list of (old, new) replacement pairs to `s`,
/// first pair first, each over the whole intermediate text.
pub open spec fn apply_seq(s: Seq<char>, ps: Seq<(Seq<char>, Seq<char>)>) -> Seq<char>
    decreases ps.len(),
{
    if ps.len() == 0 {
        s
    } else {
        apply_seq(replace_seq(s, ps[0].0, ps[0].1), ps.skip(1))
    }
}

/// The character-level view of a list of (old, new) replacement strings.
pub open spec fn pair_views(ps: Seq<(String, String)>) -> Seq<(Seq<char>, Seq<char>)> {
    ps.map_values(|p: (String, String)| (p.0@, p.1@))
}

/// Every `old` side of the pattern list is non-empty.
pub open spec fn nonempty_patterns(ps: Seq<(Seq<char>, Seq<char>)>) -> bool {
    forall|i: int| 0 <= i < ps.len() ==> (#[trigger] ps[i]).0.len() > 0
}

/// True when no nonempty proper suffix of `p` is also a prefix of `p`, that
/// is, `p` has no border. Every pattern the rename engine derives from two
/// distinct identifiers has this shape.
pub open spec fn unbordered(p: Seq<char>) -> bool {
    forall|k: int| 1 <= k < p.len() ==> #[trigger] p.skip(k) != p.take(p.len() - k)
}

/// An occurrence in a suffix of `s` is an occurrence in `s`.
pub proof fn lemma_occurs_shift(s: Seq<char>, p: Seq<char>, k: int)
    requires
        0 <= k <= s.len(),
        occurs(s.skip(k), p),
    ensures
        occurs(s, p),
{
    let i = choose|i: int| matches_at(s.skip(k), p, i);
    assert(s.skip(k).subrange(i, i + p.len() as int) =~= s.subrange(
        k + i,
        k + i + p.len() as int,
    ));
    assert(matches_at(s, p, k + i));
}

/// Replacing a pattern that does not occur leaves the text unchanged.
pub proof fn lemma_replace_absent(s: Seq<char>, p: Seq<char>, t: Seq<char>)
    requires
        p.len() > 0,
        !occurs(s, p),
    ensures
        replace_seq(s, p, t) == s,
    decreases s.len(),
{
    if s.len() < p.len() {
    } else if is_prefix(p, s) {
        assert(matches_at(s, p, 0));
        assert(false);
    } else {
        if occurs(s.skip(1), p) {
            lemma_occurs_shift(s, p, 1);
        }
        lemma_replace_absent(s.skip(1), p, t);
        assert(s.take(1) + s.skip(1) =~= s);
    }
}

/// A replacement result shorter than the new spelling saw no match at all.
pub proof fn lemma_replace_short(s: Seq<char>, a: Seq<char>, b: Seq<char>)
    requires
        a.len() > 0,
        replace_seq(s, a, b).len() < b.len(),
    ensures
        replace_seq(s, a, b) == s,
    decreases s.len(),
{
    if s.len() < a.len() {
    } else if is_prefix(a, s) {
        assert(replace_seq(s, a, b).len() >= b.len());
    } else {
        lemma_replace_short(s.skip(1), a, b);
        assert(s.take(1) + s.skip(1) =~= s);
    }
}

/// A nonempty proper suffix of an unbordered `b` that starts off the result
/// of a replacement introducing `b` can only have been read from the
/// original text itself.
proof fn lemma_partial_prefix(s: Seq<char>, a: Seq<char>, b: Seq<char>, j: int)
    requires
        a.len() > 0,
        b.len() > 0,
        unbordered(b),
        1 <= j < b.len(),
        is_prefix(b.skip(j), replace_seq(s, a, b)),
    ensures
        is_prefix(b.skip(j), s),
    decreases s.len(),
{
    let r = replace_seq(s, a, b);
    let l = b.len() - j;
    if s.len() < a.len() {
        // r == s, so the prefix is read from s directly
    } else if is_prefix(a, s) {
        // r starts with the full new spelling b, so the suffix b.skip(j)
        // would be a prefix of b itself: a border, which b does not have
        assert(r.subrange(0, l) =~= b.take(l));
        assert(b.skip(j) == b.take(l));
        assert(false);
    } else {
        assert(r =~= s.take(1) + replace_seq(s.skip(1), a, b));
        assert(b.skip(j)[0] == b[j]);
        assert(r[0] == s[0]);
        if j + 1 == b.len() {
            assert(b.skip(j) =~= seq![b[j]]);
            assert(s.subrange(0, 1) =~= seq![s[0]]);
        } else {
            let r1 = replace_seq(s.skip(1), a, b);
            assert(b.skip(j).skip(1) =~= b.skip(j + 1));
            assert forall|idx: int| 0 <= idx < l - 1 implies r1[idx] == b.skip(j + 1)[idx] by {
                assert(r[idx + 1] == b.skip(j)[idx + 1]);
            }
            assert(r1.subrange(0, l - 1) =~= b.skip(j + 1));
            assert(is_prefix(b.skip(j + 1), r1));
            lemma_partial_prefix(s.skip(1), a, b, j + 1);
            assert forall|idx: int| 0 <= idx < l implies s[idx] == b.skip(j)[idx] by {
                if idx > 0 {
                    assert(s.skip(1).subrange(0, l - 1)[idx - 1] == b.skip(j + 1)[idx - 1]);
                }
            }
            assert(s.subrange(0, l) =~= b.skip(j));
        }
    }
}

/// Law (rename round trip, one pattern): replacing `a` by `b` and then `b`
/// by `a` restores the original text, provided the new spelling `b` does not
/// occur in the original and has no border.
pub proof fn lemma_replace_round_trip(s: Seq<char>, a: Seq<char>, b: Seq<char>)
    requires
        a.len() > 0,
        b.len() > 0,
        unbordered(b),
        !occurs(s, b),
    ensures
        replace_seq(replace_seq(s, a, b), b, a) == s,
    decreases s.len(),
{
    let f = replace_seq(s, a, b);
    if f.len() < b.len() {
        lemma_replace_short(s, a, b);
    } else if s.len() < a.len() {
        lemma_replace_absent(s, b, a);
    } else if is_prefix(a, s) {
        let tail = s.skip(a.len() as int);
        let r = replace_seq(tail, a, b);
        assert(f.subrange(0, b.len() as int) =~= b);
        assert(is_prefix(b, f));
        assert(f.skip(b.len() as int) =~= r);
        if occurs(tail, b) {
            lemma_occurs_shift(s, b, a.len() as int);
        }
        lemma_replace_round_trip(tail, a, b);
        assert(a + tail =~= s);
    } else {
        let r1 = replace_seq(s.skip(1), a, b);
        assert(f =~= s.take(1) + r1);
        if is_prefix(b, f) {
            if b.len() == 1 {
                assert(b =~= seq![s[0]]);
                assert(s.subrange(0, 1) =~= b);
                assert(matches_at(s, b, 0));
            } else {
                assert forall|idx: int| 0 <= idx < b.len() - 1 implies r1[idx] == b.skip(1)[idx]
                    by {
                    assert(f[idx + 1] == b[idx + 1]);
                }
                assert(r1.subrange(0, b.len() - 1) =~= b.skip(1));
                assert(is_prefix(b.skip(1), r1));
                lemma_partial_prefix(s.skip(1), a, b, 1);
                assert forall|idx: int| 0 <= idx < b.len() implies s[idx] == b[idx] by {
                    if idx > 0 {
                        assert(s.skip(1).subrange(0, b.len() - 1)[idx - 1] == b.skip(1)[idx
                            - 1]);
                    }
                }
                assert(s.subrange(0, b.len() as int) =~= b);
                assert(matches_at(s, b, 0));
            }
            assert(false);
        }
        assert(f.take(1) =~= s.take(1));
        assert(f.skip(1) =~= r1);
        if occurs(s.skip(1), b) {
            lemma_occurs_shift(s, b, 1);
        }
        lemma_replace_round_trip(s.skip(1), a, b);
        assert(s.take(1) + s.skip(1) =~= s);
    }
}

/// The pattern list that undoes `ps`: each pair swapped, in reverse order.
pub open spec fn swap_pairs(ps: Seq<(Seq<char>, Seq<char>)>) -> Seq<(Seq<char>, Seq<char>)>
    decreases ps.len(),
{
    if ps.len() == 0 {
        ps
    } else {
        swap_pairs(ps.skip(1)) + seq![(ps[0].1, ps[0].0)]
    }
}

/// The stepwise conditions under which a pattern list can be undone: as each
/// pair is applied in turn, its new spelling is absent from the text it is
/// introduced into, and is unbordered.
pub open spec fn round_trip_ok(s: Seq<char>, ps: Seq<(Seq<char>, Seq<char>)>) -> bool
    decreases ps.len(),
{
    ps.len() == 0 || {
        &&& ps[0].0.len() > 0
        &&& ps[0].1.len() > 0
        &&& unbordered(ps[0].1)
        &&& !occurs(s, ps[0].1)
        &&& round_trip_ok(replace_seq(s, ps[0].0, ps[0].1), ps.skip(1))
    }
}

/// Applying a concatenation of pattern lists applies one after the other.
pub proof fn lemma_apply_concat(
    s: Seq<char>,
    u: Seq<(Seq<char>, Seq<char>)>,
    v: Seq<(Seq<char>, Seq<char>)>,
)
    ensures
        apply_seq(s, u + v) == apply_seq(apply_seq(s, u), v),
    decreases u.len(),
{
    if u.len() == 0 {
        assert(u + v =~= v);
    } else {
        assert((u + v)[0] == u[0]);
        assert((u + v).skip(1) =~= u.skip(1) + v);
        lemma_apply_concat(replace_seq(s, u[0].0, u[0].1), u.skip(1), v);
    }
}

/// Law (rename round trip): applying a pattern list and then the swapped
/// pairs in reverse order restores the original text, whenever each new
/// spelling is absent from the text it is introduced into and is unbordered.
pub proof fn lemma_apply_round_trip(s: Seq<char>, ps: Seq<(Seq<char>, Seq<char>)>)
    requires
        round_trip_ok(s, ps),
    ensures
        apply_seq(apply_seq(s, ps), swap_pairs(ps)) == s,
    decreases ps.len(),
{
    if ps.len() == 0 {
    } else {
        let s1 = replace_seq(s, ps[0].0, ps[0].1);
        lemma_apply_round_trip(s1, ps.skip(1));
        lemma_apply_concat(apply_seq(s, ps), swap_pairs(ps.skip(1)), seq![(ps[0].1, ps[0].0)]);
        lemma_replace_round_trip(s, ps[0].0, ps[0].1);
        let single = seq![(ps[0].1, ps[0].0)];
        assert(single[0] == (ps[0].1, ps[0].0));
        assert(single.skip(1) =~= Seq::<(Seq<char>, Seq<char>)>::empty());
        let once = replace_seq(s1, ps[0].1, ps[0].0);
        assert(apply_seq(once, single.skip(1)) == once);
        assert(apply_seq(s1, single) == once);
    }
}

/// Checks whether `p` occurs in `s` at position `i`.
fn match_at(s: &Vec<char>, p: &Vec<char>, i: usize) -> (r: bool)
    requires
        i + p@.len() <= s@.len(),
    ensures
        r == matches_at(s@, p@, i as int),
{
    let n = s.len();
    let m = p.len();
    let mut j: usize = 0;
    while j < m
        invariant
            n == s@.len(),
            i + m <= n,
            m == p@.len(),
            j <= m,
            forall|k: int| 0 <= k < j ==> s@[i + k] == p@[k],
        decreases m - j,
    {
        if s[i + j] != p[j] {
            proof {
                assert(s@.subrange(i as int, i + m)[j as int] == s@[i + j]);
            }
            return false;
        }
        j = j + 1;
    }
    proof {
        assert(s@.subrange(i as int, i + m) =~= p@);
    }
    true
}

/// Replaces every occurrence of `from` in `s` by `to`, non-overlapping,
/// leftmost first, over vectors of characters.
pub fn replace_chars(s: &Vec<char>, from: &Vec<char>, to: &Vec<char>) -> (r: Vec<char>)
    requires
        from@.len() > 0,
    ensures
        r@ == replace_seq(s@, from@, to@),
{
    let n = s.len();
    let m = from.len();
    let mut out: Vec<char> = Vec::new();
    let mut i: usize = 0;
    proof {
        assert(s@.skip(0) =~= s@);
        assert(Seq::<char>::empty() + replace_seq(s@, from@, to@) =~= replace_seq(
            s@,
            from@,
            to@,
        ));
    }
    while i < n
        invariant
            n == s@.len(),
            m == from@.len(),
            m > 0,
            i <= n,
            out@ + replace_seq(s@.skip(i as int), from@, to@) == replace_seq(s@, from@, to@),
        decreases n - i,
    {
        if n - i >= m && match_at(s, from, i) {
            proof {
                let rest = s@.skip(i as int);
                assert(rest.subrange(0, m as int) =~= s@.subrange(i as int, i + m));
                assert(is_prefix(from@, rest));
                assert(rest.skip(m as int) =~= s@.skip(i + m));
                assert(replace_seq(rest, from@, to@) == to@ + replace_seq(
                    s@.skip(i + m),
                    from@,
                    to@,
                ));
            }
            let ghost out0 = out@;
            let mut j: usize = 0;
            while j < to.len()
                invariant
                    j <= to@.len(),
                    out@ == out0 + to@.take(j as int),
                decreases to@.len() - j,
            {
                out.push(to[j]);
                proof {
                    assert(out@ =~= out0 + to@.take(j + 1));
                }
                j = j + 1;
            }
            proof {
                assert(out@ =~= out0 + to@);
                assert(out@ + replace_seq(s@.skip(i + m), from@, to@) =~= out0 + replace_seq(
                    s@.skip(i as int),
                    from@,
                    to@,
                ));
            }
            i = i + m;
        } else {
            proof {
                let rest = s@.skip(i as int);
                assert(rest.len() == n - i);
                if rest.len() >= m {
                    assert(!matches_at(s@, from@, i as int));
                    assert(rest.subrange(0, m as int) =~= s@.subrange(i as int, i + m));
                    assert(!is_prefix(from@, rest));
                    assert(replace_seq(rest, from@, to@) == rest.take(1) + replace_seq(
                        rest.skip(1),
                        from@,
                        to@,
                    ));
                } else {
                    assert(replace_seq(rest, from@, to@) == rest);
                    assert(rest =~= rest.take(1) + rest.skip(1));
                    assert(replace_seq(rest.skip(1), from@, to@) == rest.skip(1));
                }
                assert(rest.take(1) =~= seq![s@[i as int]]);
                assert(rest.skip(1) =~= s@.skip(i + 1));
            }
            out.push(s[i]);
            proof {
                assert(out@ + replace_seq(s@.skip(i + 1), from@, to@) =~= replace_seq(
                    s@,
                    from@,
                    to@,
                ));
            }
            i = i + 1;
        }
    }
    proof {
        assert(s@.skip(n as int) =~= Seq::<char>::empty());
        assert(replace_seq(s@.skip(n as int), from@, to@) == s@.skip(n as int));
        assert(out@ =~= replace_seq(s@, from@, to@));
    }
    out
}

/// Replaces every occurrence of `from` in `s` by `to`, non-overlapping,
/// leftmost first.
pub fn replace_all(s: &str, from: &str, to: &str) -> (r: String)
    requires
        from@.len() > 0,
    ensures
        r@ == replace_seq(s@, from@, to@),
{
    let sv = str_to_chars(s);
    let fv = str_to_chars(from);
    let tv = str_to_chars(to);
    let rv = replace_chars(&sv, &fv, &tv);
    chars_to_string(&rv)
}

/// Applies a list of (old, new) replacement pairs to `s`, first pair first.
pub fn apply_replacements(s: &str, ps: &Vec<(String, String)>) -> (r: String)
    requires
        nonempty_patterns(pair_views(ps@)),
    ensures
        r@ == apply_seq(s@, pair_views(ps@)),
{
    let ghost pv = pair_views(ps@);
    let mut cur = String::from_str(s);
    let mut i: usize = 0;
    proof {
        assert(pv.skip(0) =~= pv);
    }
    while i < ps.len()
        invariant
            i <= ps@.len(),
            pv == pair_views(ps@),
            nonempty_patterns(pv),
            apply_seq(cur@, pv.skip(i as int)) == apply_seq(s@, pv),
        decreases ps@.len() - i,
    {
        proof {
            assert(pv[i as int] == (ps@[i as int].0@, ps@[i as int].1@));
            assert(pv.skip(i as int)[0] == pv[i as int]);
            assert(pv.skip(i as int).skip(1) =~= pv.skip(i + 1));
        }
        let next = replace_all(cur.as_str(), ps[i].0.as_str(), ps[i].1.as_str());
        cur = next;
        i = i + 1;
    }
    proof {
        assert(pv.skip(ps@.len() as int).len() == 0);
    }
    cur
}

/// Checks whether `p` occurs anywhere in `s`.
pub fn contains_str(s: &str, p: &str) -> (r: bool)
    ensures
        r == occurs(s@, p@),
{
    let sv = str_to_chars(s);
    let pv = str_to_chars(p);
    let n = sv.len();
    let m = pv.len();
    if m > n {
        proof {
            assert(forall|i: int| !matches_at(s@, p@, i));
        }
        return false;
    }
    if m == 0 {
        proof {
            assert(s@.subrange(0, 0) =~= p@);
            assert(matches_at(s@, p@, 0));
        }
        return true;
    }
    let mut i: usize = 0;
    while i <= n - m
        invariant
            n == s@.len(),
            m == p@.len(),
            0 < m <= n,
            sv@ == s@,
            pv@ == p@,
            i <= n - m + 1,
            forall|k: int| 0 <= k < i ==> !matches_at(s@, p@, k),
        decreases n - i,
    {
        if match_at(&sv, &pv, i) {
            proof {
                assert(occurs(s@, p@));
            }
            return true;
        }
        i = i + 1;
    }
    proof {
        assert(forall|k: int| !matches_at(s@, p@, k));
    }
    false
}

} // verus!
