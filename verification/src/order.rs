//! Lexicographic order on entry names and a sort for the browser's entry
//! list: the list shown for a directory is always sorted, whatever order the
//! file system reported.

use vstd::prelude::*;

verus! {

/// `a` comes no later than `b` in lexicographic order by character value,
/// shorter prefixes first.
pub open spec fn lex_le(a: Seq<char>, b: Seq<char>) -> bool
    decreases a.len(),
{
    if a.len() == 0 {
        true
    } else if b.len() == 0 {
        false
    } else if (a[0] as u32) < (b[0] as u32) {
        true
    } else if (b[0] as u32) < (a[0] as u32) {
        false
    } else {
        lex_le(a.skip(1), b.skip(1))
    }
}

/// Any two names are ordered one way or the other.
pub proof fn lemma_lex_total(a: Seq<char>, b: Seq<char>)
    ensures
        lex_le(a, b) || lex_le(b, a),
    decreases a.len(),
{
    if a.len() > 0 && b.len() > 0 && !((a[0] as u32) < (b[0] as u32)) && !((b[0] as u32) < (
    a[0] as u32)) {
        lemma_lex_total(a.skip(1), b.skip(1));
    }
}

/// The order is transitive.
pub proof fn lemma_lex_trans(a: Seq<char>, b: Seq<char>, c: Seq<char>)
    requires
        lex_le(a, b),
        lex_le(b, c),
    ensures
        lex_le(a, c),
    decreases a.len(),
{
    if a.len() > 0 && b.len() > 0 && c.len() > 0 && !((a[0] as u32) < (b[0] as u32)) && !((
    b[0] as u32) < (a[0] as u32)) && !((b[0] as u32) < (c[0] as u32)) && !((c[0] as u32) < (
    b[0] as u32)) {
        lemma_lex_trans(a.skip(1), b.skip(1), c.skip(1));
    }
}

/// Executable twin of [`lex_le`].
pub fn lex_le_chars(a: &Vec<char>, b: &Vec<char>) -> (r: bool)
    ensures
        r == lex_le(a@, b@),
{
    let n = a.len();
    let m = b.len();
    let mut i: usize = 0;
    proof {
        assert(a@.skip(0) =~= a@);
        assert(b@.skip(0) =~= b@);
    }
    while i < n && i < m
        invariant
            i <= n,
            i <= m,
            n == a@.len(),
            m == b@.len(),
            lex_le(a@, b@) == lex_le(a@.skip(i as int), b@.skip(i as int)),
            lex_le(b@, a@) == lex_le(b@.skip(i as int), a@.skip(i as int)),
        decreases n - i,
    {
        let x = a[i] as u32;
        let y = b[i] as u32;
        if x < y {
            assert(a@.skip(i as int)[0] == a@[i as int]);
            assert(b@.skip(i as int)[0] == b@[i as int]);
            return true;
        }
        if y < x {
            assert(a@.skip(i as int)[0] == a@[i as int]);
            assert(b@.skip(i as int)[0] == b@[i as int]);
            return false;
        }
        proof {
            assert(a@.skip(i as int)[0] == a@[i as int]);
            assert(b@.skip(i as int)[0] == b@[i as int]);
            assert(a@.skip(i as int).skip(1) =~= a@.skip(i + 1));
            assert(b@.skip(i as int).skip(1) =~= b@.skip(i + 1));
        }
        i += 1;
    }
    proof {
        if i >= n {
            assert(a@.skip(i as int).len() == 0);
        } else {
            assert(b@.skip(i as int).len() == 0);
            assert(a@.skip(i as int).len() > 0);
        }
    }
    i >= n
}

/// Every name in `s` comes no later than any name after it.
pub open spec fn sorted_lex(s: Seq<Vec<char>>) -> bool {
    forall|i: int, j: int| 0 <= i < j < s.len() ==> lex_le(#[trigger] s[i]@, #[trigger] s[j]@)
}

/// Sorts the entry names lexicographically. The result holds exactly the
/// given names (as a multiset: duplicates kept), in sorted order.
pub fn sort_entries(v: Vec<Vec<char>>) -> (r: Vec<Vec<char>>)
    ensures
        sorted_lex(r@),
        r@.to_multiset() == v@.to_multiset(),
        r@.len() == v@.len(),
{
    let ghost v0 = v@;
    let mut out: Vec<Vec<char>> = Vec::new();
    let mut src = v;
    proof {
        broadcast use vstd::seq_lib::group_to_multiset_ensures;

        assert(out@.to_multiset() =~= Seq::<Vec<char>>::empty().to_multiset());
    }
    while src.len() > 0
        invariant
            sorted_lex(out@),
            out@.len() + src@.len() == v0.len(),
            out@.to_multiset().add(src@.to_multiset()) == v0.to_multiset(),
        decreases src@.len(),
    {
        let ghost src_pre = src@;
        let x = src.remove(0);
        proof {
            broadcast use vstd::seq_lib::group_to_multiset_ensures;

            assert(src@.to_multiset() =~= src_pre.to_multiset().remove(x));
            assert(src_pre.to_multiset().count(x) > 0);
        }
        let mut p: usize = 0;
        while p < out.len() && lex_le_chars(&out[p], &x)
            invariant
                p <= out@.len(),
                forall|j: int| 0 <= j < p ==> lex_le(#[trigger] out@[j]@, x@),
            decreases out@.len() - p,
        {
            p += 1;
        }
        proof {
            assert forall|j: int| p <= j < out@.len() implies lex_le(
                x@,
                #[trigger] out@[j]@,
            ) by {
                lemma_lex_total(out@[p as int]@, x@);
                if j > p {
                    lemma_lex_trans(x@, out@[p as int]@, out@[j]@);
                }
            }
        }
        let ghost out_pre = out@;
        out.insert(p, x);
        proof {
            broadcast use vstd::seq_lib::group_to_multiset_ensures;

            out_pre.insert_ensures(p as int, x);
            assert forall|a: int, b: int| 0 <= a < b < out@.len() implies lex_le(
                #[trigger] out@[a]@,
                #[trigger] out@[b]@,
            ) by {
                if a == p {
                    assert(out@[a] == x);
                } else if b == p {
                    assert(out@[b] == x);
                } else if a < p && p < b {
                    lemma_lex_trans(out@[a]@, x@, out@[b]@);
                }
            }
            lemma_insert_to_multiset(out_pre, p as int, x);
            assert(out@.to_multiset() =~= out_pre.to_multiset().insert(x));
            assert(out@.to_multiset().add(src@.to_multiset()) =~= v0.to_multiset());
        }
    }
    proof {
        broadcast use vstd::seq_lib::group_to_multiset_ensures;

        assert forall|e: Vec<char>| #[trigger] src@.to_multiset().count(e) == 0 by {
            assert(!src@.contains(e));
        }
        assert(out@.to_multiset() =~= v0.to_multiset());
    }
    out
}

/// Inserting an element anywhere adds exactly it to the sequence's multiset.
pub proof fn lemma_insert_to_multiset(s: Seq<Vec<char>>, p: int, x: Vec<char>)
    requires
        0 <= p <= s.len(),
    ensures
        s.insert(p, x).to_multiset() == s.to_multiset().insert(x),
{
    broadcast use vstd::seq_lib::group_to_multiset_ensures;

    vstd::seq_lib::lemma_multiset_commutative(s.take(p).push(x), s.skip(p));
    vstd::seq_lib::lemma_multiset_commutative(s.take(p), s.skip(p));
    assert(s.take(p) + s.skip(p) =~= s);
    assert(s.insert(p, x) =~= s.take(p).push(x) + s.skip(p));
    assert(s.take(p).push(x).to_multiset() =~= s.take(p).to_multiset().insert(x));
    assert(s.insert(p, x).to_multiset() =~= s.to_multiset().insert(x));
}

} // verus!
