//! The order of texts: character by character, a shorter text before any
//! longer one that begins with it. This is the order in which strings compare.

use crate::text::pieces;
use vstd::prelude::*;

verus! {

/// Whether `a` comes no later than `b`.
pub open spec fn lex_le(a: Seq<char>, b: Seq<char>) -> bool
    decreases a.len(),
{
    if a.len() == 0 {
        true
    } else if b.len() == 0 {
        false
    } else if a[0] != b[0] {
        a[0] < b[0]
    } else {
        lex_le(a.drop_first(), b.drop_first())
    }
}

/// Whether each text of `s` comes no later than the one after it.
pub open spec fn ascending(s: Seq<Seq<char>>) -> bool {
    forall|i: int, j: int| 0 <= i < j < s.len() ==> lex_le(#[trigger] s[i], #[trigger] s[j])
}

/// `s` with `x` put in before the first text that does not come before it.
pub open spec fn inserted(s: Seq<Seq<char>>, x: Seq<char>) -> Seq<Seq<char>>
    decreases s.len(),
{
    if s.len() == 0 {
        seq![x]
    } else if lex_le(x, s[0]) {
        seq![x] + s
    } else {
        seq![s[0]] + inserted(s.drop_first(), x)
    }
}

/// The texts of `s` in ascending order.
pub open spec fn sorted(s: Seq<Seq<char>>) -> Seq<Seq<char>>
    decreases s.len(),
{
    if s.len() == 0 {
        s
    } else {
        inserted(sorted(s.drop_last()), s.last())
    }
}

pub proof fn lemma_lex_le_reflexive(a: Seq<char>)
    ensures
        lex_le(a, a),
    decreases a.len(),
{
    if a.len() > 0 {
        lemma_lex_le_reflexive(a.drop_first());
    }
}

/// Of two texts one comes no later than the other.
pub proof fn lemma_lex_le_total(a: Seq<char>, b: Seq<char>)
    ensures
        lex_le(a, b) || lex_le(b, a),
    decreases a.len(),
{
    if a.len() > 0 && b.len() > 0 && a[0] == b[0] {
        lemma_lex_le_total(a.drop_first(), b.drop_first());
    }
}

/// Two texts that each come no later than the other are one text.
pub proof fn lemma_lex_le_antisymmetric(a: Seq<char>, b: Seq<char>)
    requires
        lex_le(a, b),
        lex_le(b, a),
    ensures
        a == b,
    decreases a.len(),
{
    if a.len() > 0 {
        assert(b.len() > 0);
        assert(a[0] == b[0]);
        lemma_lex_le_antisymmetric(a.drop_first(), b.drop_first());
        assert(a =~= seq![a[0]] + a.drop_first());
        assert(b =~= seq![b[0]] + b.drop_first());
    } else {
        assert(b.len() == 0);
        assert(a =~= b);
    }
}

pub proof fn lemma_lex_le_transitive(a: Seq<char>, b: Seq<char>, c: Seq<char>)
    requires
        lex_le(a, b),
        lex_le(b, c),
    ensures
        lex_le(a, c),
    decreases a.len(),
{
    if a.len() > 0 {
        assert(b.len() > 0);
        assert(c.len() > 0);
        if a[0] == b[0] && b[0] == c[0] {
            lemma_lex_le_transitive(a.drop_first(), b.drop_first(), c.drop_first());
        }
    }
}

/// Putting a text into an ascending sequence keeps it ascending and adds
/// exactly that text.
pub proof fn lemma_inserted(s: Seq<Seq<char>>, x: Seq<char>)
    requires
        ascending(s),
    ensures
        ascending(inserted(s, x)),
        inserted(s, x).len() == s.len() + 1,
        inserted(s, x).to_multiset() == s.to_multiset().insert(x),
    decreases s.len(),
{
    broadcast use vstd::seq_lib::group_to_multiset_ensures;

    let out = inserted(s, x);
    if s.len() == 0 {
        assert(s =~= Seq::<Seq<char>>::empty());
        assert(out =~= Seq::<Seq<char>>::empty().push(x));
    } else if lex_le(x, s[0]) {
        assert forall|i: int, j: int| 0 <= i < j < out.len() implies lex_le(
            #[trigger] out[i],
            #[trigger] out[j],
        ) by {
            if i == 0 {
                if j > 1 {
                    assert(lex_le(s[0], s[j - 1]));
                    lemma_lex_le_transitive(x, s[0], s[j - 1]);
                }
            } else {
                assert(lex_le(s[i - 1], s[j - 1]));
            }
        }
        lemma_multiset_prepend(s, x);
    } else {
        let rest = s.drop_first();
        assert forall|i: int, j: int| 0 <= i < j < rest.len() implies lex_le(
            #[trigger] rest[i],
            #[trigger] rest[j],
        ) by {
            assert(lex_le(s[i + 1], s[j + 1]));
        }
        lemma_inserted(rest, x);
        let tail = inserted(rest, x);
        lemma_lex_le_total(x, s[0]);
        assert forall|j: int| 0 <= j < tail.len() implies lex_le(s[0], #[trigger] tail[j]) by {
            assert(tail.to_multiset().count(tail[j]) > 0);
            if tail[j] != x {
                assert(rest.to_multiset().count(tail[j]) > 0);
                assert(rest.contains(tail[j]));
                let k = choose|k: int| 0 <= k < rest.len() && rest[k] == tail[j];
                assert(lex_le(s[0], s[k + 1]));
            }
        }
        assert forall|i: int, j: int| 0 <= i < j < out.len() implies lex_le(
            #[trigger] out[i],
            #[trigger] out[j],
        ) by {
            if i == 0 {
                assert(out[j] == tail[j - 1]);
            } else {
                assert(lex_le(tail[i - 1], tail[j - 1]));
            }
        }
        lemma_multiset_prepend(tail, s[0]);
        lemma_multiset_prepend(rest, s[0]);
        assert(seq![s[0]] + rest =~= s);
        assert(out.to_multiset() =~= s.to_multiset().insert(x));
    }
}

proof fn lemma_multiset_prepend(s: Seq<Seq<char>>, x: Seq<char>)
    ensures
        (seq![x] + s).to_multiset() == s.to_multiset().insert(x),
{
    broadcast use vstd::seq_lib::group_to_multiset_ensures;

    vstd::seq_lib::lemma_multiset_commutative(seq![x], s);
    assert(seq![x] =~= Seq::<Seq<char>>::empty().push(x));
    assert(Seq::<Seq<char>>::empty().to_multiset() =~= vstd::multiset::Multiset::empty());
    assert((seq![x] + s).to_multiset() =~= s.to_multiset().insert(x));
}

/// Sorting gives the same texts, each as often as before, in ascending order.
pub proof fn lemma_sorted(s: Seq<Seq<char>>)
    ensures
        ascending(sorted(s)),
        sorted(s).len() == s.len(),
        sorted(s).to_multiset() == s.to_multiset(),
    decreases s.len(),
{
    broadcast use vstd::seq_lib::group_to_multiset_ensures;

    if s.len() > 0 {
        lemma_sorted(s.drop_last());
        lemma_inserted(sorted(s.drop_last()), s.last());
        assert(s.drop_last().push(s.last()) =~= s);
    }
}

/// Two ascending sequences that hold the same texts, each as often, are one
/// sequence.
pub proof fn lemma_ascending_unique(a: Seq<Seq<char>>, b: Seq<Seq<char>>)
    requires
        ascending(a),
        ascending(b),
        a.to_multiset() == b.to_multiset(),
    ensures
        a == b,
    decreases a.len(),
{
    broadcast use vstd::seq_lib::group_to_multiset_ensures;

    a.to_multiset_ensures();
    b.to_multiset_ensures();
    assert(a.len() == b.len());
    if a.len() == 0 {
        assert(a =~= b);
    } else {
        // The first text of each is the least of both.
        assert(b.to_multiset().count(a[0]) > 0);
        assert(b.contains(a[0]));
        let i = choose|i: int| 0 <= i < b.len() && b[i] == a[0];
        assert(a.to_multiset().count(b[0]) > 0);
        assert(a.contains(b[0]));
        let j = choose|j: int| 0 <= j < a.len() && a[j] == b[0];
        if i > 0 {
            assert(lex_le(b[0], b[i]));
        } else {
            lemma_lex_le_reflexive(b[0]);
        }
        if j > 0 {
            assert(lex_le(a[0], a[j]));
        } else {
            lemma_lex_le_reflexive(a[0]);
        }
        lemma_lex_le_antisymmetric(a[0], b[0]);
        let ra = a.drop_first();
        let rb = b.drop_first();
        assert forall|p: int, q: int| 0 <= p < q < ra.len() implies lex_le(
            #[trigger] ra[p],
            #[trigger] ra[q],
        ) by {
            assert(lex_le(a[p + 1], a[q + 1]));
        }
        assert forall|p: int, q: int| 0 <= p < q < rb.len() implies lex_le(
            #[trigger] rb[p],
            #[trigger] rb[q],
        ) by {
            assert(lex_le(b[p + 1], b[q + 1]));
        }
        lemma_multiset_prepend(ra, a[0]);
        lemma_multiset_prepend(rb, b[0]);
        assert(seq![a[0]] + ra =~= a);
        assert(seq![b[0]] + rb =~= b);
        assert(ra.to_multiset() =~= a.to_multiset().remove(a[0]));
        assert(rb.to_multiset() =~= b.to_multiset().remove(b[0]));
        lemma_ascending_unique(ra, rb);
    }
}

/// Sorting does not depend on the order in which the texts were given.
pub proof fn lemma_sorted_of_permutation(a: Seq<Seq<char>>, b: Seq<Seq<char>>)
    requires
        a.to_multiset() == b.to_multiset(),
    ensures
        sorted(a) == sorted(b),
{
    lemma_sorted(a);
    lemma_sorted(b);
    lemma_ascending_unique(sorted(a), sorted(b));
}

/// Whether `a` comes no later than `b`.
pub fn chars_le(a: &Vec<char>, b: &Vec<char>) -> (r: bool)
    ensures
        r == lex_le(a@, b@),
{
    let mut i: usize = 0;
    assert(a@.skip(0) =~= a@ && b@.skip(0) =~= b@);
    while i < a.len() && i < b.len()
        invariant
            i <= a.len(),
            i <= b.len(),
            lex_le(a@, b@) == lex_le(a@.skip(i as int), b@.skip(i as int)),
        decreases a.len() - i,
    {
        assert(a@.skip(i as int)[0] == a@[i as int]);
        assert(b@.skip(i as int)[0] == b@[i as int]);
        if a[i] != b[i] {
            return a[i] < b[i];
        }
        assert(a@.skip(i as int).drop_first() =~= a@.skip(i + 1));
        assert(b@.skip(i as int).drop_first() =~= b@.skip(i + 1));
        i += 1;
    }
    i == a.len()
}

/// Puts `x` into an ascending vector at its place.
pub fn insert_ascending(v: &mut Vec<Vec<char>>, x: Vec<char>)
    ensures
        pieces(final(v)@) == inserted(pieces(old(v)@), x@),
{
    let mut i: usize = 0;
    let ghost whole = pieces(v@);
    assert(whole.skip(0) =~= whole);
    assert(whole.take(0) + inserted(whole.skip(0), x@) =~= inserted(whole, x@));
    while i < v.len() && !chars_le(&x, &v[i])
        invariant
            i <= v.len(),
            v@ == old(v)@,
            whole == pieces(v@),
            inserted(whole, x@) == whole.take(i as int) + inserted(whole.skip(i as int), x@),
        decreases v.len() - i,
    {
        proof {
            let rest = whole.skip(i as int);
            assert(rest[0] == v@[i as int]@);
            assert(rest.drop_first() =~= whole.skip(i + 1));
            assert(whole.take(i as int) + (seq![rest[0]] + inserted(whole.skip(i + 1), x@))
                =~= whole.take(i + 1) + inserted(whole.skip(i + 1), x@));
        }
        i += 1;
    }
    proof {
        let rest = whole.skip(i as int);
        if i < v.len() {
            assert(rest[0] == v@[i as int]@);
        }
        assert(inserted(rest, x@) == seq![x@] + rest);
    }
    v.insert(i, x);
    assert(pieces(v@) =~= whole.take(i as int) + (seq![x@] + whole.skip(i as int)));
}

/// The texts of `v` in ascending order.
pub fn sort_texts(v: Vec<Vec<char>>) -> (out: Vec<Vec<char>>)
    ensures
        pieces(out@) == sorted(pieces(v@)),
{
    let mut out: Vec<Vec<char>> = Vec::new();
    let ghost all = pieces(v@);
    assert(pieces(out@) =~= sorted(all.take(0)));
    for x in it: v
        invariant
            it.seq() == v@,
            all == pieces(v@),
            pieces(out@) == sorted(all.take(it.index() as int)),
    {
        proof {
            let k = it.index() as int;
            assert(all.take(k + 1).drop_last() =~= all.take(k));
            assert(all.take(k + 1).last() == x@);
        }
        insert_ascending(&mut out, x);
    }
    assert(all.take(v@.len() as int) =~= all);
    out
}

} // verus!
