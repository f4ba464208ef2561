//! Lexicographic ordering of page names, and sorting.
//!
//! The index page lists the page folders in ascending lexicographic order
//! of their names, regardless of the order in which the filesystem handed
//! them out.

use vstd::prelude::*;

verus! {

/// Lexicographic "less than or equal" on character sequences: the empty
/// sequence comes first, and otherwise the first differing character
/// decides.
pub open spec fn lex_leq(a: Seq<char>, b: Seq<char>) -> bool
    decreases a.len(),
{
    if a.len() == 0 {
        true
    } else if b.len() == 0 {
        false
    } else if a[0] == b[0] {
        lex_leq(a.drop_first(), b.drop_first())
    } else {
        a[0] < b[0]
    }
}

/// `lex_leq` as a first-class relation, for use with `Seq::sort_by`.
pub open spec fn lex_leq_fn() -> spec_fn(Seq<char>, Seq<char>) -> bool {
    |a: Seq<char>, b: Seq<char>| lex_leq(a, b)
}

pub proof fn lemma_lex_leq_reflexive(a: Seq<char>)
    ensures
        lex_leq(a, a),
    decreases a.len(),
{
    if a.len() > 0 {
        lemma_lex_leq_reflexive(a.drop_first());
    }
}

pub proof fn lemma_lex_leq_antisymmetric(a: Seq<char>, b: Seq<char>)
    requires
        lex_leq(a, b),
        lex_leq(b, a),
    ensures
        a == b,
    decreases a.len(),
{
    if a.len() == 0 {
        assert(b.len() == 0);
        assert(a =~= b);
    } else {
        lemma_lex_leq_antisymmetric(a.drop_first(), b.drop_first());
        assert(a =~= seq![a[0]] + a.drop_first());
        assert(b =~= seq![b[0]] + b.drop_first());
    }
}

pub proof fn lemma_lex_leq_transitive(a: Seq<char>, b: Seq<char>, c: Seq<char>)
    requires
        lex_leq(a, b),
        lex_leq(b, c),
    ensures
        lex_leq(a, c),
    decreases a.len(),
{
    if a.len() > 0 && b.len() > 0 && c.len() > 0 {
        if a[0] == b[0] && b[0] == c[0] {
            lemma_lex_leq_transitive(a.drop_first(), b.drop_first(), c.drop_first());
        }
    }
}

pub proof fn lemma_lex_leq_connected(a: Seq<char>, b: Seq<char>)
    ensures
        lex_leq(a, b) || lex_leq(b, a),
    decreases a.len(),
{
    if a.len() > 0 && b.len() > 0 && a[0] == b[0] {
        lemma_lex_leq_connected(a.drop_first(), b.drop_first());
    }
}

/// `lex_leq` is a total ordering, so sorting by it has a unique result.
pub proof fn lemma_lex_leq_total_ordering()
    ensures
        vstd::relations::total_ordering(lex_leq_fn()),
{
    let leq = lex_leq_fn();
    assert forall|a: Seq<char>| #[trigger] leq(a, a) by {
        lemma_lex_leq_reflexive(a);
    }
    assert forall|a: Seq<char>, b: Seq<char>| #[trigger] leq(a, b) && #[trigger] leq(b, a)
        implies a == b by {
        lemma_lex_leq_antisymmetric(a, b);
    }
    assert forall|a: Seq<char>, b: Seq<char>, c: Seq<char>|
        #[trigger] leq(a, b) && #[trigger] leq(b, c) implies leq(a, c) by {
        lemma_lex_leq_transitive(a, b, c);
    }
    assert forall|a: Seq<char>, b: Seq<char>| #[trigger] leq(a, b) || #[trigger] leq(b, a) by {
        lemma_lex_leq_connected(a, b);
    }
}

/// The character sequences of a sequence of strings.
pub open spec fn views_of(s: Seq<String>) -> Seq<Seq<char>> {
    s.map_values(|x: String| x@)
}

pub proof fn lemma_views_insert(s: Seq<String>, i: int, x: String)
    requires
        0 <= i <= s.len(),
    ensures
        views_of(s.insert(i, x)) == views_of(s).insert(i, x@),
{
    assert(views_of(s.insert(i, x)) =~= views_of(s).insert(i, x@));
}

pub proof fn lemma_views_push(s: Seq<String>, x: String)
    ensures
        views_of(s.push(x)) == views_of(s).push(x@),
{
    assert(views_of(s.push(x)) =~= views_of(s).push(x@));
}

/// Decides `lex_leq` on two string slices.
pub fn str_lex_leq(a: &str, b: &str) -> (r: bool)
    ensures
        r == lex_leq(a@, b@),
    decreases a@.len(),
{
    let a_len = a.unicode_len();
    let b_len = b.unicode_len();
    if a_len == 0 {
        true
    } else if b_len == 0 {
        false
    } else {
        let ca = a.get_char(0);
        let cb = b.get_char(0);
        if ca == cb {
            let a_rest = a.substring_char(1, a_len);
            let b_rest = b.substring_char(1, b_len);
            proof {
                assert(a_rest@ =~= a@.drop_first());
                assert(b_rest@ =~= b@.drop_first());
            }
            str_lex_leq(a_rest, b_rest)
        } else {
            ca < cb
        }
    }
}

/// Sorts page names into ascending lexicographic order.
///
/// The result is exactly `sort_by` of the input's character sequences
/// under `lex_leq`: sorted, and a permutation of the input.
pub fn sort_names(names: Vec<String>) -> (r: Vec<String>)
    ensures
        views_of(r@) == views_of(names@).sort_by(lex_leq_fn()),
        vstd::relations::sorted_by(views_of(r@), lex_leq_fn()),
        views_of(r@).to_multiset() == views_of(names@).to_multiset(),
{
    broadcast use vstd::seq_lib::group_to_multiset_ensures;

    let leq = Ghost(lex_leq_fn());
    let mut out: Vec<String> = Vec::new();
    proof {
        assert(views_of(out@) =~= Seq::<Seq<char>>::empty());
        assert(views_of(names@.subrange(0, 0)) =~= Seq::<Seq<char>>::empty());
        assert(views_of(out@).to_multiset() =~= views_of(
            names@.subrange(0, 0),
        ).to_multiset());
    }
    let n = names.len();
    for i in 0..n
        invariant
            n == names.len(),
            leq@ == lex_leq_fn(),
            vstd::relations::sorted_by(views_of(out@), leq@),
            views_of(out@).to_multiset() == views_of(names@.subrange(0, i as int)).to_multiset(),
    {
        let x = names[i].clone();
        let mut k: usize = 0;
        while k < out.len() && str_lex_leq(out[k].as_str(), x.as_str())
            invariant
                leq@ == lex_leq_fn(),
                k <= out.len(),
                forall|p: int| 0 <= p < k ==> lex_leq(#[trigger] views_of(out@)[p], x@),
            decreases out.len() - k,
        {
            k += 1;
        }
        proof {
            let vs = views_of(out@);
            lemma_lex_leq_total_ordering();
            if k < out@.len() {
                lemma_lex_leq_connected(vs[k as int], x@);
            }
            assert forall|q: int| k <= q < vs.len() implies lex_leq(x@, #[trigger] vs[q]) by {
                assert(leq@(vs[k as int], vs[q]));
                lemma_lex_leq_transitive(x@, vs[k as int], vs[q]);
            }
            lemma_views_insert(out@, k as int, x);
            let vs2 = views_of(out@).insert(k as int, x@);
            assert forall|p: int, q: int| 0 <= p < q < vs2.len() implies leq@(
                #[trigger] vs2[p],
                #[trigger] vs2[q],
            ) by {
                if p < k && q > k {
                    assert(vs2[p] == vs[p]);
                    assert(vs2[q] == vs[q - 1]);
                }
            }
            assert(names@.subrange(0, i + 1) =~= names@.subrange(0, i as int).push(names@[i as int]));
            lemma_views_push(names@.subrange(0, i as int), names@[i as int]);
            vstd::seq_lib::to_multiset_insert(views_of(out@), k as int, x@);
            vstd::seq_lib::to_multiset_build(
                views_of(names@.subrange(0, i as int)),
                names@[i as int]@,
            );
        }
        out.insert(k, x);
    }
    proof {
        assert(names@.subrange(0, n as int) =~= names@);
        lemma_lex_leq_total_ordering();
        views_of(names@).lemma_sort_by_ensures(lex_leq_fn());
        vstd::seq_lib::lemma_sorted_unique(
            views_of(out@),
            views_of(names@).sort_by(lex_leq_fn()),
            lex_leq_fn(),
        );
    }
    out
}

} // verus!
