//! Stable sorting by string keys, and pagination.
use vstd::prelude::*;
use vstd::set_lib::{set_int_range, lemma_int_range, lemma_subset_equality};
use crate::text::{chars_eq, chars_lt, seq_lt, lemma_seq_lt_irreflexive, lemma_seq_lt_transitive,
    lemma_seq_lt_total};

verus! {

/// Key `a` sorts strictly before key `b`: ascending by default, descending when `desc`.
pub open spec fn key_before(a: Seq<char>, b: Seq<char>, desc: bool) -> bool {
    if desc {
        seq_lt(b, a)
    } else {
        seq_lt(a, b)
    }
}

/// The character views of a vector of keys.
pub open spec fn key_views(keys: Seq<Vec<char>>) -> Seq<Seq<char>> {
    keys.map_values(|k: Vec<char>| k@)
}

/// `p` lists `n` distinct positions, each below `n`.
pub open spec fn is_index_permutation(p: Seq<int>, n: int) -> bool {
    &&& p.len() == n
    &&& forall|k: int| 0 <= k < n ==> 0 <= #[trigger] p[k] < n
    &&& forall|k1: int, k2: int| 0 <= k1 < k2 < n ==> #[trigger] p[k1] != #[trigger] p[k2]
}

/// Taking positions in the order `p` puts their keys in order, and positions
/// with equal keys keep their original relative order.
pub open spec fn is_stable_order(p: Seq<int>, keys: Seq<Seq<char>>, desc: bool) -> bool {
    forall|k1: int, k2: int|
        0 <= k1 < k2 < p.len() ==> {
            &&& !key_before(keys[#[trigger] p[k2]], keys[#[trigger] p[k1]], desc)
            &&& (keys[p[k1]] == keys[p[k2]] ==> p[k1] < p[k2])
        }
}

/// `result` is `items` rearranged by the stable sort on `keys`.
pub open spec fn is_stable_sort<T>(
    items: Seq<T>,
    keys: Seq<Seq<char>>,
    desc: bool,
    result: Seq<T>,
) -> bool {
    exists|p: Seq<int>| #[trigger] is_sorting_permutation(items, keys, desc, result, p)
}

/// The permutation `p` witnesses that `result` is the stable sort of `items` by `keys`.
pub open spec fn is_sorting_permutation<T>(
    items: Seq<T>,
    keys: Seq<Seq<char>>,
    desc: bool,
    result: Seq<T>,
    p: Seq<int>,
) -> bool {
    &&& is_index_permutation(p, items.len() as int)
    &&& is_stable_order(p, keys, desc)
    &&& result.len() == items.len()
    &&& forall|k: int| 0 <= k < result.len() ==> #[trigger] result[k] == items[p[k]]
}

/// If `a` sorts before `b` and `c` does not sort before `b`, then `a` sorts before `c`.
proof fn lemma_before_then_not_before(a: Seq<char>, b: Seq<char>, c: Seq<char>, desc: bool)
    requires
        key_before(a, b, desc),
        !key_before(c, b, desc),
    ensures
        key_before(a, c, desc),
        !key_before(c, a, desc),
        a != c,
{
    lemma_seq_lt_total(b, c);
    lemma_seq_lt_irreflexive(a);
    if desc {
        if b != c {
            lemma_seq_lt_transitive(c, b, a);
        }
        if seq_lt(a, c) {
            lemma_seq_lt_transitive(c, a, c);
            lemma_seq_lt_irreflexive(c);
        }
    } else {
        if b != c {
            lemma_seq_lt_transitive(a, b, c);
        }
        if seq_lt(c, a) {
            lemma_seq_lt_transitive(a, c, a);
        }
    }
}

/// Position `i` comes before position `j` in the stable order on `keys`: its key
/// sorts strictly first, or the keys are equal and `i` was first.
pub open spec fn position_before(keys: Seq<Seq<char>>, desc: bool, i: int, j: int) -> bool {
    key_before(keys[i], keys[j], desc) || (keys[i] == keys[j] && i < j)
}

/// A stable order lists its positions in increasing `position_before` order.
proof fn lemma_stable_order_increasing(p: Seq<int>, keys: Seq<Seq<char>>, desc: bool, n: int, k1: int, k2: int)
    requires
        is_index_permutation(p, n),
        is_stable_order(p, keys, desc),
        0 <= k1 < k2 < n,
    ensures
        position_before(keys, desc, p[k1], p[k2]),
{
    let a = keys[p[k1]];
    let b = keys[p[k2]];
    assert(!key_before(keys[p[k2]], keys[p[k1]], desc));
    lemma_seq_lt_total(a, b);
    assert(p[k1] != p[k2]);
}

/// `position_before` never holds both ways.
proof fn lemma_position_before_asymmetric(keys: Seq<Seq<char>>, desc: bool, i: int, j: int)
    requires
        position_before(keys, desc, i, j),
    ensures
        !position_before(keys, desc, j, i),
{
    lemma_seq_lt_irreflexive(keys[i]);
    lemma_seq_lt_irreflexive(keys[j]);
    if seq_lt(keys[i], keys[j]) && seq_lt(keys[j], keys[i]) {
        lemma_seq_lt_transitive(keys[i], keys[j], keys[i]);
    }
}

/// An index permutation of `n` positions lists every position below `n`.
proof fn lemma_permutation_covers(p: Seq<int>, n: int, x: int)
    requires
        is_index_permutation(p, n),
        0 <= x < n,
    ensures
        exists|m: int| 0 <= m < n && p[m] == x,
{
    assert forall|i: int, j: int| 0 <= i < p.len() && 0 <= j < p.len() && i != j implies p[i]
        != p[j] by {
        if i < j {
            assert(p[i] != p[j]);
        } else {
            assert(p[j] != p[i]);
        }
    }
    assert(p.no_duplicates());
    p.unique_seq_to_set();
    lemma_int_range(0, n);
    assert(p.to_set().subset_of(set_int_range(0, n))) by {
        assert forall|y: int| p.to_set().contains(y) implies set_int_range(0, n).contains(y) by {
            let m = choose|m: int| 0 <= m < p.len() && p[m] == y;
            assert(0 <= p[m] < n);
        }
    }
    lemma_subset_equality(p.to_set(), set_int_range(0, n));
    assert(set_int_range(0, n).contains(x));
    assert(p.to_set().contains(x));
}

/// Two stable orders of the same positions agree on their first `k` entries.
proof fn lemma_stable_orders_agree(p: Seq<int>, q: Seq<int>, keys: Seq<Seq<char>>, desc: bool, n: int, k: int)
    requires
        is_index_permutation(p, n),
        is_stable_order(p, keys, desc),
        is_index_permutation(q, n),
        is_stable_order(q, keys, desc),
        0 <= k <= n,
    ensures
        forall|j: int| 0 <= j < k ==> p[j] == q[j],
    decreases k,
{
    if k > 0 {
        lemma_stable_orders_agree(p, q, keys, desc, n, k - 1);
        let c = k - 1;
        let x = p[c];
        let y = q[c];
        if x != y {
            if position_before(keys, desc, x, y) {
                lemma_permutation_covers(q, n, x);
                let m = choose|m: int| 0 <= m < n && q[m] == x;
                if m < c {
                    assert(p[m] == q[m]);
                    assert(p[m] != p[c]);
                } else if m > c {
                    lemma_stable_order_increasing(q, keys, desc, n, c, m);
                    lemma_position_before_asymmetric(keys, desc, x, y);
                }
            } else {
                if keys[x] == keys[y] {
                    assert(position_before(keys, desc, y, x));
                } else {
                    lemma_seq_lt_total(keys[x], keys[y]);
                }
                assert(position_before(keys, desc, y, x));
                lemma_permutation_covers(p, n, y);
                let m = choose|m: int| 0 <= m < n && p[m] == y;
                if m < c {
                    assert(p[m] == q[m]);
                    assert(q[m] != q[c]);
                } else if m > c {
                    lemma_stable_order_increasing(p, keys, desc, n, c, m);
                    lemma_position_before_asymmetric(keys, desc, y, x);
                }
            }
        }
    }
}

/// The stable sort of given items by given keys is unique: any two results are equal.
pub proof fn law_stable_sort_is_unique<T>(
    items: Seq<T>,
    keys: Seq<Seq<char>>,
    desc: bool,
    r1: Seq<T>,
    r2: Seq<T>,
)
    requires
        keys.len() == items.len(),
        is_stable_sort(items, keys, desc, r1),
        is_stable_sort(items, keys, desc, r2),
    ensures
        r1 == r2,
{
    let p = choose|p: Seq<int>| #[trigger] is_sorting_permutation(items, keys, desc, r1, p);
    let q = choose|q: Seq<int>| #[trigger] is_sorting_permutation(items, keys, desc, r2, q);
    lemma_stable_orders_agree(p, q, keys, desc, items.len() as int, items.len() as int);
    assert(r1 =~= r2);
}

/// Each key comes strictly before the next: sorted, and no key occurs twice.
pub open spec fn strictly_increasing(s: Seq<Seq<char>>) -> bool {
    forall|i: int, j: int| 0 <= i < j < s.len() ==> seq_lt(#[trigger] s[i], #[trigger] s[j])
}

/// Insert `key` into the strictly increasing `found` unless it is already there.
pub fn insert_distinct(found: &mut Vec<Vec<char>>, key: Vec<char>)
    requires
        strictly_increasing(key_views(old(found)@)),
    ensures
        strictly_increasing(key_views(final(found)@)),
        forall|a: Seq<char>|
            #[trigger] key_views(final(found)@).contains(a) <==> (key_views(old(found)@).contains(a)
                || a == key@),
{
    let ghost before = key_views(found@);
    let mut pos: usize = 0;
    while pos < found.len() && chars_lt(&found[pos], &key)
        invariant
            pos <= found.len(),
            before == key_views(found@),
            forall|j: int| 0 <= j < pos ==> seq_lt(#[trigger] before[j], key@),
        decreases found.len() - pos,
    {
        pos = pos + 1;
    }
    let present = pos < found.len() && chars_eq(&found[pos], &key);
    if !present {
        let ghost k = key@;
        found.insert(pos, key);
        proof {
            let after = key_views(found@);
            assert(after =~= before.insert(pos as int, k));
            assert forall|x: int, y: int| 0 <= x < y < after.len() implies seq_lt(
                #[trigger] after[x],
                #[trigger] after[y],
            ) by {
                if y == pos {
                    assert(after[x] == before[x]);
                } else if x == pos {
                    assert(after[y] == before[y - 1]);
                    lemma_seq_lt_total(before[pos as int], k);
                    if y - 1 > pos {
                        lemma_seq_lt_transitive(k, before[pos as int], before[y - 1]);
                    }
                } else {
                    let ox = if x < pos { x } else { x - 1 };
                    let oy = if y < pos { y } else { y - 1 };
                    assert(after[x] == before[ox]);
                    assert(after[y] == before[oy]);
                }
            }
            assert forall|a: Seq<char>| #[trigger] after.contains(a) <==> (before.contains(a) || a
                == k) by {
                if after.contains(a) {
                    let q = choose|q: int| 0 <= q < after.len() && after[q] == a;
                    if q < pos {
                        assert(before[q] == a);
                    } else if q > pos {
                        assert(before[q - 1] == a);
                    }
                }
                if before.contains(a) {
                    let q = choose|q: int| 0 <= q < before.len() && before[q] == a;
                    if q < pos {
                        assert(after[q] == a);
                    } else {
                        assert(after[q + 1] == a);
                    }
                }
                if a == k {
                    assert(after[pos as int] == a);
                }
            }
        }
    } else {
        proof {
            assert(before[pos as int] == key@);
        }
    }
}

/// Whether key `a` sorts strictly before key `b`.
fn keys_before(a: &Vec<char>, b: &Vec<char>, desc: bool) -> (r: bool)
    ensures
        r == key_before(a@, b@, desc),
{
    if desc {
        chars_lt(b, a)
    } else {
        chars_lt(a, b)
    }
}

/// Stable sort of `items` by `keys` (the key of `items[i]` is `keys[i]`),
/// ascending, or descending when `desc`.
pub fn sort_by_keys<T>(items: Vec<T>, keys: &Vec<Vec<char>>, desc: bool) -> (r: Vec<T>)
    requires
        items.len() == keys.len(),
    ensures
        is_stable_sort(items@, key_views(keys@), desc, r@),
{
    let n = items.len();
    let ghost kv = key_views(keys@);
    let mut rest = items;
    let mut out: Vec<T> = Vec::new();
    let mut order: Vec<usize> = Vec::new();
    let mut i: usize = 0;
    while i < n
        invariant
            n == items@.len(),
            n == keys@.len(),
            kv == key_views(keys@),
            i <= n,
            rest@ == items@.skip(i as int),
            out@.len() == i,
            order@.len() == i,
            forall|k: int| 0 <= k < i ==> #[trigger] order@[k] < i,
            forall|k1: int, k2: int| 0 <= k1 < k2 < i ==> #[trigger] order@[k1] != #[trigger] order@[k2],
            forall|k: int| 0 <= k < i ==> #[trigger] out@[k] == items@[order@[k] as int],
            is_stable_order(order@.map_values(|x: usize| x as int), kv, desc),
        decreases n - i,
    {
        let ghost old_order = order@;
        let ghost old_out = out@;
        assert(rest@[0] == items@[i as int]);
        let t = rest.remove(0);
        assert(rest@ =~= items@.skip(i + 1));
        let mut pos: usize = 0;
        while pos < out.len() && !keys_before(&keys[i], &keys[order[pos]], desc)
            invariant
                pos <= out@.len(),
                out@.len() == i,
                order@.len() == i,
                i < n,
                n == keys@.len(),
                forall|k: int| 0 <= k < i ==> #[trigger] order@[k] < i,
                kv == key_views(keys@),
                forall|k: int|
                    0 <= k < pos ==> !key_before(kv[i as int], #[trigger] kv[order@[k] as int], desc),
            decreases out@.len() - pos,
        {
            assert(kv[order@[pos as int] as int] == keys@[order@[pos as int] as int]@);
            pos = pos + 1;
        }
        proof {
            assert(kv[i as int] == keys@[i as int]@);
            if pos < out@.len() {
                assert(kv[order@[pos as int] as int] == keys@[order@[pos as int] as int]@);
            }
        }
        out.insert(pos, t);
        order.insert(pos, i);
        proof {
            let po = old_order.map_values(|x: usize| x as int);
            let pn = order@.map_values(|x: usize| x as int);
            assert forall|k1: int, k2: int| 0 <= k1 < k2 < pn.len() implies {
                &&& !key_before(kv[#[trigger] pn[k2]], kv[#[trigger] pn[k1]], desc)
                &&& (kv[pn[k1]] == kv[pn[k2]] ==> pn[k1] < pn[k2])
            } by {
                let o1 = if k1 < pos { k1 } else { k1 - 1 };
                let o2 = if k2 < pos { k2 } else { k2 - 1 };
                if k1 == pos as int {
                    // the new element against a later one
                    assert(pn[k1] == i as int);
                    assert(pn[k2] == po[o2]);
                    assert(pos < old_order.len());
                    assert(key_before(kv[i as int], kv[po[pos as int]], desc));
                    if o2 > pos as int {
                        assert(!key_before(kv[po[o2]], kv[po[pos as int]], desc));
                    }
                    lemma_seq_lt_irreflexive(kv[po[pos as int]]);
                    if o2 == pos as int {
                        lemma_seq_lt_irreflexive(kv[i as int]);
                        lemma_seq_lt_total(kv[i as int], kv[po[o2]]);
                        if desc {
                            if seq_lt(kv[i as int], kv[po[o2]]) {
                                lemma_seq_lt_transitive(kv[i as int], kv[po[o2]], kv[i as int]);
                            }
                        } else {
                            if seq_lt(kv[po[o2]], kv[i as int]) {
                                lemma_seq_lt_transitive(kv[i as int], kv[po[o2]], kv[i as int]);
                            }
                        }
                    } else {
                        lemma_before_then_not_before(
                            kv[i as int],
                            kv[po[pos as int]],
                            kv[po[o2]],
                            desc,
                        );
                    }
                } else if k2 == pos as int {
                    // an earlier element against the new one
                    assert(pn[k2] == i as int);
                    assert(pn[k1] == po[o1]);
                    assert(!key_before(kv[i as int], kv[po[o1]], desc));
                } else {
                    assert(pn[k1] == po[o1]);
                    assert(pn[k2] == po[o2]);
                }
            }
            assert(is_stable_order(pn, kv, desc));
            assert forall|k: int| 0 <= k < i + 1 implies #[trigger] out@[k] == items@[
                order@[k] as int] by {
                if k < pos {
                    assert(out@[k] == old_out[k]);
                } else if k > pos {
                    assert(out@[k] == old_out[k - 1]);
                }
            }
            assert forall|k1: int, k2: int| 0 <= k1 < k2 < i + 1 implies #[trigger] order@[k1]
                != #[trigger] order@[k2] by {
                if k1 != pos && k2 != pos {
                    let o1 = if k1 < pos { k1 } else { k1 - 1 };
                    let o2 = if k2 < pos { k2 } else { k2 - 1 };
                    assert(order@[k1] == old_order[o1]);
                    assert(order@[k2] == old_order[o2]);
                } else if k1 == pos {
                    assert(order@[k2] == old_order[k2 - 1]);
                } else {
                    assert(order@[k1] == old_order[k1]);
                }
            }
            assert forall|k: int| 0 <= k < i + 1 implies #[trigger] order@[k] < i + 1 by {
                if k < pos {
                    assert(order@[k] == old_order[k]);
                } else if k > pos {
                    assert(order@[k] == old_order[k - 1]);
                }
            }
        }
        i = i + 1;
    }
    proof {
        let p = order@.map_values(|x: usize| x as int);
        assert(is_sorting_permutation(items@, kv, desc, out@, p));
    }
    out
}

/// `s` with its first `offset` items dropped, then cut to at most `limit` items.
pub open spec fn spec_paginate<T>(s: Seq<T>, offset: int, limit: Option<usize>) -> Seq<T> {
    let rest = if offset <= s.len() {
        s.skip(offset)
    } else {
        Seq::empty()
    };
    match limit {
        Some(n) => if n < rest.len() {
            rest.take(n as int)
        } else {
            rest
        },
        None => rest,
    }
}

/// Skip `offset` items, then keep at most `limit` of the rest (all when `None`).
pub fn paginate<T>(items: Vec<T>, offset: usize, limit: Option<usize>) -> (r: Vec<T>)
    ensures
        r@ == spec_paginate(items@, offset as int, limit),
{
    let mut items = items;
    let mut rest = if offset <= items.len() {
        items.split_off(offset)
    } else {
        Vec::new()
    };
    if let Some(n) = limit {
        rest.truncate(n);
    }
    rest
}

} // verus!
