//! Lexicographic order on text and a stable sort by text keys.
use vstd::prelude::*;

verus! {

/// `a` sorts strictly before `b`, comparing characters by code point
/// (the order of `str::cmp`, since UTF-8 preserves code point order).
pub open spec fn text_lt(a: Seq<char>, b: Seq<char>) -> bool
    decreases a.len(),
{
    if a.len() == 0 {
        b.len() > 0
    } else if b.len() == 0 {
        false
    } else if a[0] != b[0] {
        a[0] < b[0]
    } else {
        text_lt(a.drop_first(), b.drop_first())
    }
}

/// `text_lt` never relates a text to itself.
pub proof fn lemma_text_lt_irreflexive(a: Seq<char>)
    ensures
        !text_lt(a, a),
    decreases a.len(),
{
    if a.len() > 0 {
        lemma_text_lt_irreflexive(a.drop_first());
    }
}

/// `text_lt` is transitive.
pub proof fn lemma_text_lt_transitive(a: Seq<char>, b: Seq<char>, c: Seq<char>)
    requires
        text_lt(a, b),
        text_lt(b, c),
    ensures
        text_lt(a, c),
    decreases a.len(),
{
    if a.len() > 0 && b.len() > 0 && c.len() > 0 && a[0] == b[0] && b[0] == c[0] {
        lemma_text_lt_transitive(a.drop_first(), b.drop_first(), c.drop_first());
    }
}

/// Of two different texts, one sorts before the other.
pub proof fn lemma_text_lt_total(a: Seq<char>, b: Seq<char>)
    ensures
        a == b || text_lt(a, b) || text_lt(b, a),
    decreases a.len(),
{
    if a.len() > 0 && b.len() > 0 {
        if a[0] == b[0] {
            lemma_text_lt_total(a.drop_first(), b.drop_first());
            if a.drop_first() == b.drop_first() {
                assert(a =~= seq![a[0]] + a.drop_first());
                assert(b =~= seq![b[0]] + b.drop_first());
            }
        }
    } else if a.len() == 0 && b.len() == 0 {
        assert(a =~= b);
    }
}

/// Of two texts, at most one sorts before the other.
pub proof fn lemma_text_lt_asymmetric(a: Seq<char>, b: Seq<char>)
    ensures
        !(text_lt(a, b) && text_lt(b, a)),
{
    if text_lt(a, b) && text_lt(b, a) {
        lemma_text_lt_transitive(a, b, a);
        lemma_text_lt_irreflexive(a);
    }
}

/// Whether `a` sorts strictly before `b`.
pub fn text_lt_exec(a: &Vec<char>, b: &Vec<char>) -> (r: bool)
    ensures
        r == text_lt(a@, b@),
{
    let mut i: usize = 0;
    assert(a@.subrange(0, a@.len() as int) =~= a@);
    assert(b@.subrange(0, b@.len() as int) =~= b@);
    while i < a.len() && i < b.len() && a[i] == b[i]
        invariant
            i <= a.len(),
            i <= b.len(),
            text_lt(a@, b@) == text_lt(
                a@.subrange(i as int, a@.len() as int),
                b@.subrange(i as int, b@.len() as int),
            ),
        decreases a.len() - i,
    {
        let ghost sa = a@.subrange(i as int, a@.len() as int);
        let ghost sb = b@.subrange(i as int, b@.len() as int);
        assert(sa.drop_first() =~= a@.subrange(i + 1, a@.len() as int));
        assert(sb.drop_first() =~= b@.subrange(i + 1, b@.len() as int));
        i += 1;
    }
    let ghost sa = a@.subrange(i as int, a@.len() as int);
    let ghost sb = b@.subrange(i as int, b@.len() as int);
    if i == a.len() {
        i < b.len()
    } else if i == b.len() {
        false
    } else {
        assert(sa[0] == a@[i as int] && sb[0] == b@[i as int]);
        a[i] < b[i]
    }
}

/// The keys in the order of the permutation `perm` are sorted (ascending, or
/// descending when `desc`), and entries with equal keys keep their original order.
pub open spec fn stable_sorted(keys: Seq<Seq<char>>, perm: Seq<int>, desc: bool) -> bool {
    &&& forall|a: int, b: int|
        0 <= a < b < perm.len() ==> (if desc {
            !text_lt(keys[perm[a]], keys[perm[b]])
        } else {
            !text_lt(keys[perm[b]], keys[perm[a]])
        })
    &&& forall|a: int, b: int|
        0 <= a < b < perm.len() && keys[perm[a]] == keys[perm[b]] ==> perm[a] < perm[b]
}

/// `perm` lists each index below `n` exactly once.
pub open spec fn is_permutation(perm: Seq<int>, n: int) -> bool {
    &&& perm.len() == n
    &&& forall|a: int| 0 <= a < perm.len() ==> 0 <= #[trigger] perm[a] < n
    &&& forall|a: int, b: int| 0 <= a < b < perm.len() ==> perm[a] != perm[b]
}

/// The order of `key` relative to `other` that the sort keeps in front.
pub open spec fn goes_before(other: Seq<char>, key: Seq<char>, desc: bool) -> bool {
    if desc {
        !text_lt(other, key)
    } else {
        !text_lt(key, other)
    }
}

/// The order in which a stable sort lists the entries with the given keys:
/// ascending, or descending when `desc`, ties kept in their original order.
pub fn stable_sort_order(keys: &Vec<Vec<char>>, desc: bool) -> (perm: Vec<usize>)
    ensures
        is_permutation(perm@.map_values(|x: usize| x as int), keys@.len() as int),
        stable_sorted(
            keys@.map_values(|k: Vec<char>| k@),
            perm@.map_values(|x: usize| x as int),
            desc,
        ),
{
    let ghost ks = keys@.map_values(|k: Vec<char>| k@);
    let mut perm: Vec<usize> = Vec::new();
    let mut i: usize = 0;
    while i < keys.len()
        invariant
            i <= keys@.len(),
            ks == keys@.map_values(|k: Vec<char>| k@),
            perm@.len() == i,
            forall|a: int| 0 <= a < perm@.len() ==> (#[trigger] perm@[a] as int) < i,
            forall|a: int, b: int| 0 <= a < b < perm@.len() ==> perm@[a] != perm@[b],
            stable_sorted(ks, perm@.map_values(|x: usize| x as int), desc),
        decreases keys@.len() - i,
    {
        // Find the insertion point: after every entry that goes before key i.
        let mut p = perm.len();
        loop
            invariant
                p <= perm@.len(),
                i < keys@.len(),
                perm@.len() == i,
                ks == keys@.map_values(|k: Vec<char>| k@),
                forall|a: int| 0 <= a < perm@.len() ==> (#[trigger] perm@[a] as int) < i,
                forall|a: int|
                    p <= a < perm@.len() ==> !goes_before(
                        ks[#[trigger] perm@[a] as int],
                        ks[i as int],
                        desc,
                    ),
            ensures
                p <= perm@.len(),
                p > 0 ==> goes_before(ks[perm@[p - 1] as int], ks[i as int], desc),
                forall|a: int|
                    p <= a < perm@.len() ==> !goes_before(
                        ks[#[trigger] perm@[a] as int],
                        ks[i as int],
                        desc,
                    ),
            decreases p,
        {
            if p == 0 {
                break;
            }
            let before = if desc {
                !text_lt_exec(&keys[perm[p - 1]], &keys[i])
            } else {
                !text_lt_exec(&keys[i], &keys[perm[p - 1]])
            };
            if before {
                break;
            }
            p -= 1;
        }
        proof {
            lemma_insertion_keeps_sorted(ks, perm@.map_values(|x: usize| x as int), p as int, i as int, desc);
        }
        let ghost before = perm@;
        perm.insert(p, i);
        proof {
            assert(perm@.map_values(|x: usize| x as int) =~= before.map_values(|x: usize| x as int).insert(
                p as int,
                i as int,
            ));
        }
        i += 1;
    }
    proof {
        assert(ks.len() == keys@.len());
    }
    perm
}

/// "Not before" is transitive.
pub proof fn lemma_ge_trans(x: Seq<char>, m: Seq<char>, k: Seq<char>)
    requires
        !text_lt(x, m),
        !text_lt(m, k),
    ensures
        !text_lt(x, k),
{
    if text_lt(x, k) {
        lemma_text_lt_total(m, k);
        if text_lt(k, m) {
            lemma_text_lt_transitive(x, k, m);
        }
    }
}

/// Inserting index `i` (larger than all present) at a point after every entry
/// that goes before it, and before every entry that does not, keeps the order stable.
proof fn lemma_insertion_keeps_sorted(ks: Seq<Seq<char>>, perm: Seq<int>, p: int, i: int, desc: bool)
    requires
        0 <= p <= perm.len(),
        0 <= i < ks.len(),
        forall|a: int| 0 <= a < perm.len() ==> 0 <= #[trigger] perm[a] < i,
        stable_sorted(ks, perm, desc),
        p > 0 ==> goes_before(ks[perm[p - 1]], ks[i], desc),
        forall|a: int| p <= a < perm.len() ==> !goes_before(ks[#[trigger] perm[a]], ks[i], desc),
    ensures
        stable_sorted(ks, perm.insert(p, i), desc),
{
    let q = perm.insert(p, i);
    assert forall|a: int, b: int| 0 <= a < b < q.len() implies (if desc {
        !text_lt(ks[q[a]], ks[q[b]])
    } else {
        !text_lt(ks[q[b]], ks[q[a]])
    }) && (ks[q[a]] == ks[q[b]] ==> q[a] < q[b]) by {
        if a == p {
            // q[a] == i, b > p: q[b] == perm[b - 1], which does not go before key i.
            assert(q[b] == perm[b - 1]);
            assert(!goes_before(ks[perm[b - 1]], ks[i], desc));
            lemma_text_lt_asymmetric(ks[perm[b - 1]], ks[i]);
            lemma_text_lt_total(ks[perm[b - 1]], ks[i]);
            if ks[q[a]] == ks[q[b]] {
                lemma_text_lt_irreflexive(ks[i]);
            }
        } else if b == p {
            // q[b] == i, a < p: perm[a] goes before perm[p - 1], which goes before i.
            assert(q[a] == perm[a]);
            if a < p - 1 {
                if desc {
                    lemma_ge_trans(ks[perm[a]], ks[perm[p - 1]], ks[i]);
                } else {
                    lemma_ge_trans(ks[i], ks[perm[p - 1]], ks[perm[a]]);
                }
            }
        } else {
            let a0 = if a < p { a } else { a - 1 };
            let b0 = if b < p { b } else { b - 1 };
            assert(q[a] == perm[a0]);
            assert(q[b] == perm[b0]);
            assert(a0 < b0);
        }
    }
}

} // verus!
