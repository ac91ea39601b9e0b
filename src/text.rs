//! Facts about character sequences that the renderer's laws are stated with.

use vstd::prelude::*;

verus! {

/// How many times `p` occurs in `s`, overlapping occurrences included: one
/// for each position of `s` at which an occurrence of `p` ends.
pub open spec fn occurrences(s: Seq<char>, p: Seq<char>) -> nat
    decreases s.len(),
{
    if s.len() == 0 {
        0
    } else {
        occurrences(s.drop_last(), p) + if 0 < p.len() <= s.len() && s.subrange(
            s.len() - p.len(),
            s.len() as int,
        ) == p {
            1nat
        } else {
            0nat
        }
    }
}

/// No occurrence of `p` in `a + b` can overlap the place where they meet:
/// one of the two characters there is not in `p`.
pub open spec fn parted(a: Seq<char>, b: Seq<char>, p: Seq<char>) -> bool {
    ||| b.len() == 0
    ||| (a.len() > 0 && !p.contains(a.last()))
    ||| !p.contains(b[0])
}

/// `c` does not occur in `s`.
pub open spec fn lacks(s: Seq<char>, c: char) -> bool {
    forall|i: int| 0 <= i < s.len() ==> s[i] != c
}

/// Where no occurrence overlaps the meeting point, the occurrences in a
/// concatenation are those of its two parts.
pub proof fn lemma_occurrences_concat(a: Seq<char>, b: Seq<char>, p: Seq<char>)
    requires
        parted(a, b, p),
    ensures
        occurrences(a + b, p) == occurrences(a, p) + occurrences(b, p),
    decreases b.len(),
{
    if b.len() == 0 {
        assert(a + b =~= a);
    } else {
        let b2 = b.drop_last();
        assert((a + b).drop_last() =~= a + b2);
        if b2.len() > 0 {
            assert(b2[0] == b[0]);
        }
        lemma_occurrences_concat(a, b2, p);
        let n = a.len() + b.len();
        let w = (a + b).subrange(n - p.len(), n as int);
        if 0 < p.len() <= b.len() {
            assert(w =~= b.subrange(b.len() - p.len(), b.len() as int));
        } else if b.len() < p.len() <= n {
            if w == p {
                let k = p.len() - b.len();
                assert(w[k] == b[0]);
                assert(w[k - 1] == a.last());
                assert(p[k] == b[0]);
                assert(p[k - 1] == a.last());
                assert(false);
            }
        }
    }
}

/// A sequence that lacks the first character of `p` holds no occurrence of it.
pub proof fn lemma_occurrences_absent(s: Seq<char>, p: Seq<char>)
    requires
        p.len() > 0,
        lacks(s, p[0]),
    ensures
        occurrences(s, p) == 0,
    decreases s.len(),
{
    if s.len() > 0 {
        lemma_occurrences_absent(s.drop_last(), p);
        if p.len() <= s.len() {
            let w = s.subrange(s.len() - p.len(), s.len() as int);
            assert(w[0] == s[s.len() - p.len()]);
        }
    }
}

/// A sequence that lacks the last character of `p` holds no occurrence of it.
pub proof fn lemma_occurrences_absent_last(s: Seq<char>, p: Seq<char>)
    requires
        p.len() > 0,
        lacks(s, p.last()),
    ensures
        occurrences(s, p) == 0,
    decreases s.len(),
{
    if s.len() > 0 {
        lemma_occurrences_absent_last(s.drop_last(), p);
        if p.len() <= s.len() {
            let w = s.subrange(s.len() - p.len(), s.len() as int);
            assert(w[p.len() - 1] == s[s.len() - 1]);
        }
    }
}

/// A sequence shorter than `p` holds no occurrence of it.
pub proof fn lemma_occurrences_short(s: Seq<char>, p: Seq<char>)
    requires
        s.len() < p.len(),
    ensures
        occurrences(s, p) == 0,
    decreases s.len(),
{
    if s.len() > 0 {
        lemma_occurrences_short(s.drop_last(), p);
    }
}

/// A sequence holds itself once, where it is not empty.
pub proof fn lemma_occurrences_self(p: Seq<char>)
    requires
        p.len() > 0,
    ensures
        occurrences(p, p) == 1,
{
    lemma_occurrences_short(p.drop_last(), p);
    assert(p.subrange(0, p.len() as int) =~= p);
}

/// A character that neither part holds is not in their concatenation.
pub proof fn lemma_lacks_concat(a: Seq<char>, b: Seq<char>, c: char)
    requires
        lacks(a, c),
        lacks(b, c),
    ensures
        lacks(a + b, c),
{
    assert forall|i: int| 0 <= i < (a + b).len() implies (a + b)[i] != c by {
        if i >= a.len() {
            assert((a + b)[i] == b[i - a.len()]);
        }
    }
}

} // verus!
