//! Orderings: stable by a numeric key or a pair of them, largest first; and by text, in
//! code-point order.
use crate::text::chars_of;
use vstd::prelude::*;

verus! {

/// Element `a` comes before element `b`: a larger key, or an equal key and a smaller index.
pub open spec fn precedes(keys: Seq<i128>, a: int, b: int) -> bool {
    keys[a] > keys[b] || (keys[a] == keys[b] && a < b)
}

/// `p` lists every index of `keys` once, largest key first, equal keys in their first
/// order: the order a stable sort by descending key produces. (A strictly ordered sequence
/// of `n` indices below `n` holds each of them exactly once, so this fixes `p`.)
pub open spec fn is_stable_desc_order(keys: Seq<i128>, p: Seq<usize>) -> bool {
    &&& p.len() == keys.len()
    &&& forall|j: int| 0 <= j < p.len() ==> (#[trigger] p[j]) < keys.len()
    &&& forall|j: int, k: int|
        0 <= j < k < p.len() ==> precedes(keys, #[trigger] p[j] as int, #[trigger] p[k] as int)
}

/// The indices of `keys` in stable descending order of key (insertion sort).
pub fn stable_desc_order(keys: &Vec<i128>) -> (p: Vec<usize>)
    ensures
        is_stable_desc_order(keys@, p@),
{
    let mut p: Vec<usize> = Vec::new();
    let mut i: usize = 0;
    while i < keys.len()
        invariant
            i <= keys.len(),
            p.len() == i,
            forall|j: int| 0 <= j < p.len() ==> (#[trigger] p@[j]) < i,
            forall|j: int, k: int|
                0 <= j < k < p.len() ==> precedes(keys@, #[trigger] p@[j] as int, #[trigger] p@[k] as int),
        decreases keys.len() - i,
    {
        let ki = keys[i];
        let mut pos: usize = 0;
        while pos < p.len() && keys[p[pos]] >= ki
            invariant
                pos <= p.len(),
                p.len() == i,
                i < keys.len(),
                ki == keys@[i as int],
                forall|j: int| 0 <= j < p.len() ==> (#[trigger] p@[j]) < i,
                forall|j: int| 0 <= j < pos ==> keys@[#[trigger] p@[j] as int] >= ki,
            decreases p.len() - pos,
        {
            pos = pos + 1;
        }
        let ghost old_p = p@;
        proof {
            if pos < old_p.len() {
                assert(keys@[old_p[pos as int] as int] < ki);
                assert forall|k: int| pos <= k < old_p.len() implies keys@[#[trigger] old_p[k] as int] < ki by {
                    if k > pos {
                        assert(precedes(keys@, old_p[pos as int] as int, old_p[k] as int));
                    }
                }
            }
        }
        p.insert(pos, i);
        assert forall|j: int| 0 <= j < p.len() implies (#[trigger] p@[j]) < i + 1 by {
            if j < pos {
                assert(p@[j] == old_p[j]);
            } else if j > pos {
                assert(p@[j] == old_p[j - 1]);
            }
        }
        assert forall|j: int, k: int| 0 <= j < k < p.len() implies precedes(
            keys@,
            #[trigger] p@[j] as int,
            #[trigger] p@[k] as int,
        ) by {
            if k < pos {
                assert(p@[j] == old_p[j] && p@[k] == old_p[k]);
            } else if k == pos {
                assert(p@[j] == old_p[j]);
            } else if j < pos {
                assert(p@[j] == old_p[j] && p@[k] == old_p[k - 1]);
            } else if j == pos {
                assert(p@[k] == old_p[k - 1]);
            } else {
                assert(p@[j] == old_p[j - 1] && p@[k] == old_p[k - 1]);
            }
        }
        i = i + 1;
    }
    p
}

/// Pair `a` is above pair `b`: a larger first part, or an equal first part and a larger
/// second part.
pub open spec fn pair_above(a: (i64, i128), b: (i64, i128)) -> bool {
    a.0 > b.0 || (a.0 == b.0 && a.1 > b.1)
}

/// Element `a` comes before element `b`: a pair above, or an equal pair and a smaller index.
pub open spec fn pair_precedes(keys: Seq<(i64, i128)>, a: int, b: int) -> bool {
    pair_above(keys[a], keys[b]) || (keys[a] == keys[b] && a < b)
}

/// `p` lists every index of `keys` once, in descending order of pair (first part, then
/// second), equal pairs in their first order: the order a stable sort by descending pair
/// produces.
pub open spec fn is_stable_desc_pair_order(keys: Seq<(i64, i128)>, p: Seq<usize>) -> bool {
    &&& p.len() == keys.len()
    &&& forall|j: int| 0 <= j < p.len() ==> (#[trigger] p[j]) < keys.len()
    &&& forall|j: int, k: int|
        0 <= j < k < p.len() ==> pair_precedes(keys, #[trigger] p[j] as int, #[trigger] p[k] as int)
}

/// The indices of `keys` in stable descending order of pair (insertion sort).
pub fn stable_desc_pair_order(keys: &Vec<(i64, i128)>) -> (p: Vec<usize>)
    ensures
        is_stable_desc_pair_order(keys@, p@),
{
    let mut p: Vec<usize> = Vec::new();
    let mut i: usize = 0;
    while i < keys.len()
        invariant
            i <= keys.len(),
            p.len() == i,
            forall|j: int| 0 <= j < p.len() ==> (#[trigger] p@[j]) < i,
            forall|j: int, k: int|
                0 <= j < k < p.len() ==> pair_precedes(keys@, #[trigger] p@[j] as int, #[trigger] p@[k] as int),
        decreases keys.len() - i,
    {
        let ki = keys[i];
        let mut pos: usize = 0;
        while pos < p.len() && (keys[p[pos]].0 > ki.0 || (keys[p[pos]].0 == ki.0 && keys[p[pos]].1 >= ki.1))
            invariant
                pos <= p.len(),
                p.len() == i,
                i < keys.len(),
                ki == keys@[i as int],
                forall|j: int| 0 <= j < p.len() ==> (#[trigger] p@[j]) < i,
                forall|j: int| 0 <= j < pos ==> !pair_above(ki, #[trigger] keys@[p@[j] as int]),
            decreases p.len() - pos,
        {
            pos = pos + 1;
        }
        let ghost old_p = p@;
        proof {
            if pos < old_p.len() {
                assert(pair_above(ki, keys@[old_p[pos as int] as int]));
                assert forall|k: int| pos <= k < old_p.len() implies pair_above(
                    ki,
                    #[trigger] keys@[old_p[k] as int],
                ) by {
                    if k > pos {
                        assert(pair_precedes(keys@, old_p[pos as int] as int, old_p[k] as int));
                    }
                }
            }
        }
        p.insert(pos, i);
        assert forall|j: int| 0 <= j < p.len() implies (#[trigger] p@[j]) < i + 1 by {
            if j < pos {
                assert(p@[j] == old_p[j]);
            } else if j > pos {
                assert(p@[j] == old_p[j - 1]);
            }
        }
        assert forall|j: int, k: int| 0 <= j < k < p.len() implies pair_precedes(
            keys@,
            #[trigger] p@[j] as int,
            #[trigger] p@[k] as int,
        ) by {
            if k < pos {
                assert(p@[j] == old_p[j] && p@[k] == old_p[k]);
            } else if k == pos {
                assert(p@[j] == old_p[j]);
                assert(!pair_above(ki, keys@[old_p[j] as int]));
            } else if j < pos {
                assert(p@[j] == old_p[j] && p@[k] == old_p[k - 1]);
            } else if j == pos {
                assert(p@[k] == old_p[k - 1]);
            } else {
                assert(p@[j] == old_p[j - 1] && p@[k] == old_p[k - 1]);
            }
        }
        i = i + 1;
    }
    p
}

/// `a` comes before `b` in code-point order, character by character, a proper prefix first.
/// (UTF-8 keeps code-point order, so this is the order of `str`'s `Ord`.)
pub open spec fn lex_less(a: Seq<char>, b: Seq<char>) -> bool
    decreases a.len(),
{
    if a.len() == 0 {
        b.len() > 0
    } else if b.len() == 0 {
        false
    } else if a[0] != b[0] {
        (a[0] as int) < (b[0] as int)
    } else {
        lex_less(a.drop_first(), b.drop_first())
    }
}

/// No text comes before itself.
pub proof fn lemma_lex_irreflexive(a: Seq<char>)
    ensures
        !lex_less(a, a),
    decreases a.len(),
{
    if a.len() > 0 {
        lemma_lex_irreflexive(a.drop_first());
    }
}

/// The order is transitive.
pub proof fn lemma_lex_transitive(a: Seq<char>, b: Seq<char>, c: Seq<char>)
    requires
        lex_less(a, b),
        lex_less(b, c),
    ensures
        lex_less(a, c),
    decreases a.len(),
{
    if a.len() > 0 && b.len() > 0 && c.len() > 0 && a[0] == b[0] && b[0] == c[0] {
        lemma_lex_transitive(a.drop_first(), b.drop_first(), c.drop_first());
    }
}

/// Of two different texts, one comes before the other.
pub proof fn lemma_lex_total(a: Seq<char>, b: Seq<char>)
    requires
        a != b,
    ensures
        lex_less(a, b) || lex_less(b, a),
    decreases a.len(),
{
    if a.len() == 0 {
        if b.len() == 0 {
            assert(a =~= b);
        }
    } else if b.len() == 0 {
    } else if a[0] == b[0] {
        if a.drop_first() == b.drop_first() {
            assert(a =~= seq![a[0]] + a.drop_first());
            assert(b =~= seq![b[0]] + b.drop_first());
        }
        lemma_lex_total(a.drop_first(), b.drop_first());
    } else {
    }
}

/// Whether `a` comes before `b` in code-point order.
pub fn str_less(a: &str, b: &str) -> (r: bool)
    ensures
        r == lex_less(a@, b@),
{
    let av = chars_of(a);
    let bv = chars_of(b);
    let mut i: usize = 0;
    assert(a@.skip(0) =~= a@ && b@.skip(0) =~= b@);
    while i < av.len() && i < bv.len()
        invariant
            av@ == a@,
            bv@ == b@,
            i <= av.len(),
            i <= bv.len(),
            lex_less(a@.skip(i as int), b@.skip(i as int)) == lex_less(a@, b@),
        decreases av.len() - i,
    {
        assert(a@.skip(i as int)[0] == av@[i as int]);
        assert(b@.skip(i as int)[0] == bv@[i as int]);
        if av[i] != bv[i] {
            return av[i] < bv[i];
        }
        assert(a@.skip(i as int).drop_first() =~= a@.skip(i + 1));
        assert(b@.skip(i as int).drop_first() =~= b@.skip(i + 1));
        i = i + 1;
    }
    av.len() - i < bv.len() - i
}

/// `p` lists every index of `keys` once, in ascending order of key (the keys being
/// different from each other, the order is strict and `p` is fixed).
pub open spec fn is_ascending_order(keys: Seq<Seq<char>>, p: Seq<usize>) -> bool {
    &&& p.len() == keys.len()
    &&& forall|j: int| 0 <= j < p.len() ==> (#[trigger] p[j]) < keys.len()
    &&& forall|j: int, k: int|
        0 <= j < k < p.len() ==> lex_less(keys[#[trigger] p[j] as int], keys[#[trigger] p[k] as int])
}

/// The keys are different from each other.
pub open spec fn distinct_keys(keys: Seq<Seq<char>>) -> bool {
    forall|j: int, k: int| 0 <= j < k < keys.len() ==> keys[j] != keys[k]
}

/// The indices of `keys` in ascending order of key (insertion sort).
pub fn ascending_order(keys: &Vec<String>) -> (p: Vec<usize>)
    requires
        distinct_keys(crate::text::views(keys@)),
    ensures
        is_ascending_order(crate::text::views(keys@), p@),
{
    let ghost ks = crate::text::views(keys@);
    let mut p: Vec<usize> = Vec::new();
    let mut i: usize = 0;
    while i < keys.len()
        invariant
            ks == crate::text::views(keys@),
            distinct_keys(ks),
            i <= keys.len(),
            p.len() == i,
            forall|j: int| 0 <= j < p.len() ==> (#[trigger] p@[j]) < i,
            forall|j: int, k: int|
                0 <= j < k < p.len() ==> lex_less(ks[#[trigger] p@[j] as int], ks[#[trigger] p@[k] as int]),
        decreases keys.len() - i,
    {
        let mut pos: usize = 0;
        while pos < p.len() && str_less(keys[p[pos]].as_str(), keys[i].as_str())
            invariant
                ks == crate::text::views(keys@),
                pos <= p.len(),
                p.len() == i,
                i < keys.len(),
                forall|j: int| 0 <= j < p.len() ==> (#[trigger] p@[j]) < i,
                forall|j: int| 0 <= j < pos ==> lex_less(ks[#[trigger] p@[j] as int], ks[i as int]),
            decreases p.len() - pos,
        {
            pos = pos + 1;
        }
        let ghost old_p = p@;
        proof {
            if pos < old_p.len() {
                let q = old_p[pos as int] as int;
                assert(!lex_less(ks[q], ks[i as int]));
                assert(ks[q] != ks[i as int]);
                lemma_lex_total(ks[q], ks[i as int]);
                assert forall|k: int| pos <= k < old_p.len() implies lex_less(ks[i as int], ks[#[trigger] old_p[k] as int]) by {
                    if k > pos {
                        assert(lex_less(ks[q], ks[old_p[k] as int]));
                        lemma_lex_transitive(ks[i as int], ks[q], ks[old_p[k] as int]);
                    }
                }
            }
        }
        p.insert(pos, i);
        assert forall|j: int| 0 <= j < p.len() implies (#[trigger] p@[j]) < i + 1 by {
            if j < pos {
                assert(p@[j] == old_p[j]);
            } else if j > pos {
                assert(p@[j] == old_p[j - 1]);
            }
        }
        assert forall|j: int, k: int| 0 <= j < k < p.len() implies lex_less(
            ks[#[trigger] p@[j] as int],
            ks[#[trigger] p@[k] as int],
        ) by {
            if k < pos {
                assert(p@[j] == old_p[j] && p@[k] == old_p[k]);
            } else if k == pos {
                assert(p@[j] == old_p[j]);
            } else if j < pos {
                assert(p@[j] == old_p[j] && p@[k] == old_p[k - 1]);
            } else if j == pos {
                assert(p@[k] == old_p[k - 1]);
            } else {
                assert(p@[j] == old_p[j - 1] && p@[k] == old_p[k - 1]);
            }
        }
        i = i + 1;
    }
    p
}

} // verus!
