use vstd::multiset::Multiset;
use vstd::prelude::*;
use vstd::seq_lib::{
    lemma_multiset_commutative, to_multiset_build, to_multiset_contains, to_multiset_len,
    to_multiset_remove,
};

use crate::meaning::{Meaning, Translations};

verus! {

broadcast use vstd::multiset::group_multiset_axioms;

/// The translations of each meaning of a list, in order.
pub open spec fn meaning_views(s: Seq<Meaning>) -> Seq<Translations> {
    s.map_values(|m: Meaning| m@)
}

/// Holds of every meaning other than `correct`.
pub open spec fn other_than(correct: Translations) -> spec_fn(Translations) -> bool {
    |t: Translations| t != correct
}

/// The meanings of `pool` that can stand beside `correct` as wrong answers, in pool order.
pub open spec fn distractor_views(pool: Seq<Meaning>, correct: Translations) -> Seq<Translations> {
    meaning_views(pool).filter(other_than(correct))
}

/// No two entries of `pool` have the same translations.
pub open spec fn distinct_meanings(pool: Seq<Meaning>) -> bool {
    forall|i: int, j: int|
        0 <= i < pool.len() && 0 <= j < pool.len() && i != j ==> #[trigger] pool[i]@
            != #[trigger] pool[j]@
}

/// Exactly one of `choices` has the translations `correct`.
pub open spec fn holds_once(choices: Seq<Meaning>, correct: Translations) -> bool {
    &&& exists|i: int| 0 <= i < choices.len() && #[trigger] choices[i]@ == correct
    &&& forall|i: int, j: int|
        0 <= i < choices.len() && 0 <= j < choices.len() && #[trigger] choices[i]@ == correct
            && #[trigger] choices[j]@ == correct ==> i == j
}

/// Every one of `choices` has the translations of some entry of `pool`.
pub open spec fn drawn_from(choices: Seq<Meaning>, pool: Seq<Meaning>) -> bool {
    forall|i: int| 0 <= i < choices.len() ==> meaning_views(pool).contains(#[trigger] choices[i]@)
}

/// The choices other than the correct one are wrong answers of `pool`, none
/// of them offered more often than the pool holds it.
pub open spec fn wrong_answers_from(
    choices: Seq<Meaning>,
    correct: Translations,
    pool: Seq<Meaning>,
) -> bool {
    meaning_views(choices).to_multiset().remove(correct).subset_of(
        distractor_views(pool, correct).to_multiset(),
    )
}

/// The meanings of `pool` that differ from `correct`, copied in pool order.
pub fn distractors(pool: &Vec<Meaning>, correct: &Meaning) -> (r: Vec<Meaning>)
    ensures
        meaning_views(r@) == distractor_views(pool@, correct@),
{
    let n = pool.len();
    let mut r: Vec<Meaning> = Vec::new();
    let mut i: usize = 0;
    while i < n
        invariant
            n == pool@.len(),
            i <= n,
            meaning_views(r@) == meaning_views(pool@.take(i as int)).filter(other_than(correct@)),
        decreases n - i,
    {
        let ghost before = r@;
        proof {
            assert(meaning_views(pool@.take(i + 1)) =~= meaning_views(pool@.take(i as int)).push(
                pool@[i as int]@,
            ));
            meaning_views(pool@.take(i as int)).lemma_filter_push(
                pool@[i as int]@,
                other_than(correct@),
            );
        }
        if pool[i] != *correct {
            r.push(pool[i].duplicate());
            assert(meaning_views(r@) =~= meaning_views(before).push(pool@[i as int]@));
        }
        i = i + 1;
    }
    assert(pool@.take(n as int) =~= pool@);
    r
}

proof fn lemma_count_twice(s: Seq<Meaning>, i: int, j: int)
    requires
        0 <= i < s.len(),
        0 <= j < s.len(),
        i != j,
        s[i] == s[j],
    ensures
        s.to_multiset().count(s[i]) >= 2,
{
    let r = s.remove(i);
    to_multiset_remove(s, i);
    let k = if j < i {
        j
    } else {
        j - 1
    };
    assert(r[k] == s[j]);
    assert(r.contains(s[i]));
    to_multiset_contains(r, s[i]);
}

proof fn lemma_count_once(s: Seq<Meaning>, i: int)
    requires
        0 <= i < s.len(),
        forall|j: int| 0 <= j < s.len() && j != i ==> #[trigger] s[j] != s[i],
    ensures
        s.to_multiset().count(s[i]) == 1,
{
    let r = s.remove(i);
    to_multiset_remove(s, i);
    if r.contains(s[i]) {
        let k = choose|k: int| 0 <= k < r.len() && r[k] == s[i];
        let j = if k < i {
            k
        } else {
            k + 1
        };
        assert(s[j] == r[k]);
    }
    to_multiset_contains(r, s[i]);
    assert(s.contains(s[i]));
    to_multiset_contains(s, s[i]);
}

/// Reordering a list of meanings reorders their translations alike.
proof fn lemma_views_permuted(a: Seq<Meaning>, b: Seq<Meaning>)
    requires
        a.to_multiset() == b.to_multiset(),
    ensures
        meaning_views(a).to_multiset() == meaning_views(b).to_multiset(),
    decreases a.len(),
{
    to_multiset_len(a);
    to_multiset_len(b);
    if a.len() == 0 {
        assert(meaning_views(a) =~= meaning_views(b));
    } else {
        let x = a.last();
        let a1 = a.drop_last();
        assert(a =~= a1.push(x));
        to_multiset_build(a1, x);
        assert(a.contains(x)) by {
            assert(a[a.len() - 1] == x);
        }
        to_multiset_contains(a, x);
        to_multiset_contains(b, x);
        let j = choose|j: int| 0 <= j < b.len() && b[j] == x;
        let b1 = b.remove(j);
        to_multiset_remove(b, j);
        assert(a1.to_multiset() =~= b1.to_multiset());
        lemma_views_permuted(a1, b1);
        let va = meaning_views(a);
        let vb = meaning_views(b);
        assert(va =~= meaning_views(a1).push(x@));
        to_multiset_build(meaning_views(a1), x@);
        assert(meaning_views(b1) =~= vb.remove(j));
        to_multiset_remove(vb, j);
        assert(vb.contains(x@)) by {
            assert(vb[j] == x@);
        }
        to_multiset_contains(vb, x@);
        assert(va.to_multiset() =~= vb.to_multiset());
    }
}

/// Putting the choices of a round in another order keeps the correct meaning
/// exactly once, and keeps every choice one of the pool's.
pub proof fn lemma_reorder_keeps_round(
    a: Seq<Meaning>,
    b: Seq<Meaning>,
    correct: Translations,
    pool: Seq<Meaning>,
)
    requires
        a.to_multiset() == b.to_multiset(),
        holds_once(a, correct),
        drawn_from(a, pool),
        wrong_answers_from(a, correct, pool),
    ensures
        b.len() == a.len(),
        holds_once(b, correct),
        drawn_from(b, pool),
        wrong_answers_from(b, correct, pool),
{
    lemma_views_permuted(a, b);
    to_multiset_len(a);
    to_multiset_len(b);
    assert forall|k: int| 0 <= k < b.len() implies exists|p: int|
        0 <= p < a.len() && a[p] == #[trigger] b[k] by {
        assert(b.contains(b[k]));
        to_multiset_contains(b, b[k]);
        to_multiset_contains(a, b[k]);
    }
    let i0 = choose|i: int| 0 <= i < a.len() && #[trigger] a[i]@ == correct;
    assert(a.contains(a[i0]));
    to_multiset_contains(a, a[i0]);
    to_multiset_contains(b, a[i0]);
    let k0 = choose|k: int| 0 <= k < b.len() && b[k] == a[i0];
    assert(b[k0]@ == correct);
    assert forall|i: int, j: int|
        0 <= i < b.len() && 0 <= j < b.len() && #[trigger] b[i]@ == correct && #[trigger] b[j]@
            == correct implies i == j by {
        if i != j {
            let p = choose|p: int| 0 <= p < a.len() && a[p] == b[i];
            let q = choose|q: int| 0 <= q < a.len() && a[q] == b[j];
            assert(a[p]@ == correct && a[q]@ == correct);
            assert(p == i0 && q == i0);
            lemma_count_twice(b, i, j);
            assert forall|j2: int| 0 <= j2 < a.len() && j2 != i0 implies #[trigger] a[j2]
                != a[i0] by {
                if a[j2] == a[i0] {
                    assert(a[j2]@ == correct);
                }
            }
            lemma_count_once(a, i0);
        }
    }
    assert forall|k: int| 0 <= k < b.len() implies meaning_views(pool).contains(
        #[trigger] b[k]@,
    ) by {
        let p = choose|p: int| 0 <= p < a.len() && a[p] == b[k];
        assert(meaning_views(pool).contains(a[p]@));
    }
}

/// The correct meaning followed by some of its wrong answers, drawn from the
/// pool in any order, makes a sound set of choices.
pub proof fn lemma_assembled_round(
    pool: Seq<Meaning>,
    correct: Meaning,
    others: Seq<Meaning>,
    shuffled: Seq<Meaning>,
    kept: int,
)
    requires
        meaning_views(others) == distractor_views(pool, correct@),
        others.to_multiset() == shuffled.to_multiset(),
        meaning_views(pool).contains(correct@),
        0 <= kept <= shuffled.len(),
    ensures
        shuffled.len() == distractor_views(pool, correct@).len(),
        holds_once(seq![correct] + shuffled.take(kept), correct@),
        drawn_from(seq![correct] + shuffled.take(kept), pool),
        wrong_answers_from(seq![correct] + shuffled.take(kept), correct@, pool),
{
    lemma_views_permuted(others, shuffled);
    let vs = meaning_views(shuffled);
    let kept_views = vs.take(kept);
    assert(meaning_views(seq![correct] + shuffled.take(kept)) =~= seq![correct@] + kept_views);
    lemma_multiset_commutative(seq![correct@], kept_views);
    assert(seq![correct@] =~= Seq::<Translations>::empty().push(correct@));
    to_multiset_build(Seq::<Translations>::empty(), correct@);
    assert(Seq::<Translations>::empty().to_multiset() =~= Multiset::<Translations>::empty()) by {
        to_multiset_len(Seq::<Translations>::empty());
    }
    assert((seq![correct@] + kept_views).to_multiset().remove(correct@) =~= kept_views.to_multiset());
    assert(vs =~= kept_views + vs.skip(kept));
    lemma_multiset_commutative(kept_views, vs.skip(kept));
    to_multiset_len(others);
    to_multiset_len(shuffled);
    let f = other_than(correct@);
    let v = meaning_views(pool);
    let a = seq![correct] + shuffled.take(kept);
    assert forall|k: int| 0 <= k < shuffled.len() implies #[trigger] shuffled[k]@ != correct@
        && v.contains(shuffled[k]@) by {
        assert(shuffled.contains(shuffled[k]));
        to_multiset_contains(shuffled, shuffled[k]);
        to_multiset_contains(others, shuffled[k]);
        let p = choose|p: int| 0 <= p < others.len() && others[p] == shuffled[k];
        assert(meaning_views(others)[p] == shuffled[k]@);
        assert(v.filter(f).contains(shuffled[k]@));
        v.lemma_filter_contains_rev(f, shuffled[k]@);
        let q = choose|q: int| 0 <= q < v.filter(f).len() && v.filter(f)[q] == shuffled[k]@;
        v.lemma_filter_pred(f, q);
    }
    assert(a[0] == correct);
    assert forall|i: int, j: int|
        0 <= i < a.len() && 0 <= j < a.len() && #[trigger] a[i]@ == correct@ && #[trigger] a[j]@
            == correct@ implies i == j by {
        if i > 0 {
            assert(a[i] == shuffled[i - 1]);
        }
        if j > 0 {
            assert(a[j] == shuffled[j - 1]);
        }
    }
    assert forall|k: int| 0 <= k < a.len() implies v.contains(#[trigger] a[k]@) by {
        if k > 0 {
            assert(a[k] == shuffled[k - 1]);
        }
    }
}

proof fn lemma_distractor_prefix(pool: Seq<Meaning>, c: int, n: int)
    requires
        distinct_meanings(pool),
        0 <= c < pool.len(),
        0 <= n <= pool.len(),
    ensures
        meaning_views(pool.take(n)).filter(other_than(pool[c]@)).len() == if c < n {
            n - 1
        } else {
            n
        },
    decreases n,
{
    let f = other_than(pool[c]@);
    if n == 0 {
        assert(meaning_views(pool.take(0)) =~= Seq::<Translations>::empty());
        reveal(Seq::filter);
    } else {
        lemma_distractor_prefix(pool, c, n - 1);
        assert(meaning_views(pool.take(n)) =~= meaning_views(pool.take(n - 1)).push(
            pool[n - 1]@,
        ));
        meaning_views(pool.take(n - 1)).lemma_filter_push(pool[n - 1]@, f);
        if n - 1 != c {
            assert(pool[n - 1]@ != pool[c]@);
        }
    }
}

/// In a pool without repeated meanings, every entry but the correct one can be a
/// wrong answer.
pub proof fn lemma_distinct_pool_distractors(pool: Seq<Meaning>, c: int)
    requires
        distinct_meanings(pool),
        0 <= c < pool.len(),
    ensures
        distractor_views(pool, pool[c]@).len() == pool.len() - 1,
{
    lemma_distractor_prefix(pool, c, pool.len() as int);
    assert(pool.take(pool.len() as int) =~= pool);
}

} // verus!
