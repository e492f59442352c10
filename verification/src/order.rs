//! The order of text by code points (the order of `String`'s `Ord`), sorted
//! insertion into a list of texts, and joining texts with a separator.

use vstd::prelude::*;
use vstd::relations::{sorted_by, total_ordering};

verus! {

broadcast use vstd::seq_lib::group_to_multiset_ensures;

/// `a` comes before `b` or equals it, comparing characters from the left by
/// code point; a proper prefix comes first.
pub open spec fn lex_le(a: Seq<char>, b: Seq<char>) -> bool
    decreases a.len(),
{
    if a.len() == 0 {
        true
    } else if b.len() == 0 {
        false
    } else if a[0] != b[0] {
        a[0] < b[0]
    } else {
        lex_le(a.drop_first(), b.drop_first())
    }
}

/// The order of texts as a relation.
pub open spec fn text_le() -> spec_fn(Seq<char>, Seq<char>) -> bool {
    |a: Seq<char>, b: Seq<char>| lex_le(a, b)
}

/// The views of a list of character vectors.
pub open spec fn views(v: Seq<Vec<char>>) -> Seq<Seq<char>> {
    Seq::new(v.len(), |i: int| v[i]@)
}

proof fn lemma_lex_reflexive(a: Seq<char>)
    ensures
        lex_le(a, a),
    decreases a.len(),
{
    if a.len() > 0 {
        lemma_lex_reflexive(a.drop_first());
    }
}

proof fn lemma_lex_antisymmetric(a: Seq<char>, b: Seq<char>)
    requires
        lex_le(a, b),
        lex_le(b, a),
    ensures
        a == b,
    decreases a.len(),
{
    if a.len() == 0 {
        assert(b.len() == 0);
        assert(a =~= b);
    } else {
        assert(b.len() > 0);
        assert(a[0] == b[0]);
        lemma_lex_antisymmetric(a.drop_first(), b.drop_first());
        assert(a =~= seq![a[0]] + a.drop_first());
        assert(b =~= seq![b[0]] + b.drop_first());
    }
}

proof fn lemma_lex_transitive(a: Seq<char>, b: Seq<char>, c: Seq<char>)
    requires
        lex_le(a, b),
        lex_le(b, c),
    ensures
        lex_le(a, c),
    decreases a.len(),
{
    if a.len() > 0 && b.len() > 0 && c.len() > 0 {
        if a[0] == b[0] && b[0] == c[0] {
            lemma_lex_transitive(a.drop_first(), b.drop_first(), c.drop_first());
        }
    }
}

proof fn lemma_lex_total(a: Seq<char>, b: Seq<char>)
    ensures
        lex_le(a, b) || lex_le(b, a),
    decreases a.len(),
{
    if a.len() > 0 && b.len() > 0 && a[0] == b[0] {
        lemma_lex_total(a.drop_first(), b.drop_first());
    }
}

/// The order of texts is a total order.
pub proof fn lemma_text_le_total_ordering()
    ensures
        total_ordering(text_le()),
{
    assert forall|a: Seq<char>| #[trigger] text_le()(a, a) by {
        lemma_lex_reflexive(a);
    }
    assert forall|a: Seq<char>, b: Seq<char>| #[trigger] text_le()(a, b) && #[trigger] text_le()(b, a) implies a == b by {
        lemma_lex_antisymmetric(a, b);
    }
    assert forall|a: Seq<char>, b: Seq<char>, c: Seq<char>| #[trigger] text_le()(a, b) && #[trigger] text_le()(b, c) implies text_le()(a, c) by {
        lemma_lex_transitive(a, b, c);
    }
    assert forall|a: Seq<char>, b: Seq<char>| #[trigger] text_le()(a, b) || #[trigger] text_le()(b, a) by {
        lemma_lex_total(a, b);
    }
}

/// Two sorted lists of texts that hold the same texts, each as often, are equal.
pub proof fn lemma_sorted_unique(a: Seq<Seq<char>>, b: Seq<Seq<char>>)
    requires
        sorted_by(a, text_le()),
        sorted_by(b, text_le()),
        a.to_multiset() =~= b.to_multiset(),
    ensures
        a == b,
    decreases a.len(),
{
    assert(a.len() == a.to_multiset().len());
    assert(b.len() == b.to_multiset().len());
    if a.len() == 0 {
        assert(a =~= b);
    } else {
        assert(a.contains(a[0]));
        assert(a.to_multiset().count(a[0]) > 0);
        assert(b.contains(a[0]));
        let j = choose|j: int| 0 <= j < b.len() && b[j] == a[0];
        assert(b.contains(b[0]));
        assert(a.to_multiset().count(b[0]) > 0);
        assert(a.contains(b[0]));
        let k = choose|k: int| 0 <= k < a.len() && a[k] == b[0];
        if j > 0 {
            assert(text_le()(b[0], b[j]));
        } else {
            lemma_lex_reflexive(b[0]);
        }
        if k > 0 {
            assert(text_le()(a[0], a[k]));
        } else {
            lemma_lex_reflexive(a[0]);
        }
        lemma_lex_antisymmetric(a[0], b[0]);
        let a2 = a.remove(0);
        let b2 = b.remove(0);
        assert(a2.to_multiset() =~= a.to_multiset().remove(a[0]));
        assert(b2.to_multiset() =~= b.to_multiset().remove(b[0]));
        assert(sorted_by(a2, text_le())) by {
            assert forall|i: int, jj: int| 0 <= i < jj < a2.len() implies #[trigger] text_le()(a2[i], a2[jj]) by {
                assert(a2[i] == a[i + 1]);
                assert(a2[jj] == a[jj + 1]);
            }
        }
        assert(sorted_by(b2, text_le())) by {
            assert forall|i: int, jj: int| 0 <= i < jj < b2.len() implies #[trigger] text_le()(b2[i], b2[jj]) by {
                assert(b2[i] == b[i + 1]);
                assert(b2[jj] == b[jj + 1]);
            }
        }
        lemma_sorted_unique(a2, b2);
        assert(a =~= seq![a[0]] + a2);
        assert(b =~= seq![b[0]] + b2);
    }
}

/// A list holds the same texts as the sorted list it equals.
pub proof fn lemma_sorted_is_sort_by(s: Seq<Seq<char>>, t: Seq<Seq<char>>)
    requires
        sorted_by(t, text_le()),
        t.to_multiset() =~= s.to_multiset(),
    ensures
        t == s.sort_by(text_le()),
{
    lemma_text_le_total_ordering();
    s.lemma_sort_by_ensures(text_le());
    lemma_sorted_unique(t, s.sort_by(text_le()));
}

/// Compares two texts in the order of `String`'s `Ord`.
pub fn text_le_exec(a: &Vec<char>, b: &Vec<char>) -> (r: bool)
    ensures
        r == lex_le(a@, b@),
{
    let mut i: usize = 0;
    assert(a@.skip(0) =~= a@);
    assert(b@.skip(0) =~= b@);
    while i < a.len() && i < b.len()
        invariant
            0 <= i <= a.len(),
            i <= b.len(),
            lex_le(a@, b@) == lex_le(a@.skip(i as int), b@.skip(i as int)),
        decreases a.len() - i,
    {
        let x = a[i];
        let y = b[i];
        assert(a@.skip(i as int)[0] == x);
        assert(b@.skip(i as int)[0] == y);
        if x != y {
            return x < y;
        }
        assert(a@.skip(i as int).drop_first() =~= a@.skip(i + 1));
        assert(b@.skip(i as int).drop_first() =~= b@.skip(i + 1));
        i = i + 1;
    }
    i == a.len()
}

/// Inserts a text into a sorted list, keeping it sorted.
pub fn insert_sorted(list: &mut Vec<Vec<char>>, x: Vec<char>)
    requires
        sorted_by(views(old(list)@), text_le()),
    ensures
        sorted_by(views(final(list)@), text_le()),
        views(final(list)@).to_multiset() =~= views(old(list)@).to_multiset().insert(x@),
{
    let ghost xs = x@;
    let mut p: usize = 0;
    while p < list.len() && text_le_exec(&list[p], &x)
        invariant
            0 <= p <= list.len(),
            list@ == old(list)@,
            forall|j: int| 0 <= j < p ==> lex_le(#[trigger] list@[j]@, x@),
        decreases list.len() - p,
    {
        p = p + 1;
    }
    let ghost before = views(list@);
    proof {
        if p < list.len() {
            lemma_lex_total(list@[p as int]@, x@);
        }
    }
    list.insert(p, x);
    let ghost after = views(list@);
    assert(after =~= before.insert(p as int, xs));
    proof {
        assert forall|i: int, j: int| 0 <= i < j < after.len() implies #[trigger] text_le()(after[i], after[j]) by {
            if j < p {
                assert(after[i] == before[i] && after[j] == before[j]);
            } else if j == p {
                assert(after[i] == before[i]);
            } else if i == p {
                assert(after[j] == before[j - 1]);
                if j - 1 > p {
                    assert(text_le()(before[p as int], before[j - 1]));
                    lemma_lex_transitive(xs, before[p as int], before[j - 1]);
                }
            } else if i < p {
                assert(after[i] == before[i]);
                assert(after[j] == before[j - 1]);
                assert(lex_le(before[i], xs));
                if j - 1 > p {
                    assert(text_le()(before[p as int], before[j - 1]));
                    lemma_lex_transitive(xs, before[p as int], before[j - 1]);
                }
                lemma_lex_transitive(before[i], xs, before[j - 1]);
            } else {
                assert(after[i] == before[i - 1]);
                assert(after[j] == before[j - 1]);
            }
        }
        assert(after.remove(p as int) =~= before);
        assert(after.to_multiset().count(xs) > 0) by {
            assert(after.contains(xs)) by { assert(after[p as int] == xs); }
        }
        assert(before.to_multiset() =~= after.to_multiset().remove(xs));
        assert(after.to_multiset() =~= before.to_multiset().insert(xs));
    }
}

/// Texts joined with a separator between neighbours.
pub open spec fn join_with(parts: Seq<Seq<char>>, sep: Seq<char>) -> Seq<char>
    decreases parts.len(),
{
    if parts.len() == 0 {
        Seq::empty()
    } else if parts.len() == 1 {
        parts[0]
    } else {
        join_with(parts.drop_last(), sep) + sep + parts.last()
    }
}

/// Appends the texts of `parts`, with `sep` between neighbours, to `out`.
pub fn push_joined(out: &mut Vec<char>, parts: &Vec<Vec<char>>, sep: &Vec<char>)
    ensures
        final(out)@ == old(out)@ + join_with(views(parts@), sep@),
{
    let mut i: usize = 0;
    while i < parts.len()
        invariant
            0 <= i <= parts.len(),
            out@ == old(out)@ + join_with(views(parts@).take(i as int), sep@),
        decreases parts.len() - i,
    {
        let ghost pre = views(parts@).take(i + 1);
        assert(pre.drop_last() =~= views(parts@).take(i as int));
        assert(pre.last() == parts@[i as int]@);
        if i > 0 {
            let mut s = sep.clone();
            out.append(&mut s);
        }
        let mut p = parts[i].clone();
        out.append(&mut p);
        proof {
            if i == 0 {
                assert(views(parts@).take(0).len() == 0);
                assert(pre.len() == 1);
                assert(join_with(pre, sep@) == pre[0]);
            }
        }
        assert(out@ =~= old(out)@ + join_with(pre, sep@));
        i = i + 1;
    }
    assert(views(parts@).take(parts.len() as int) =~= views(parts@));
}

} // verus!
