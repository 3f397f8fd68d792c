//! The order of texts as `String::cmp` gives it, and a stable sort of a list
//! of names that reports the order as positions.

use vstd::prelude::*;
use crate::text::chars_of;

verus! {

/// `a` comes before `b`: at the first place they differ `a` has the smaller
/// character, or `a` is a proper prefix of `b`. On UTF-8 text this is the
/// byte order that `String::cmp` uses.
pub open spec fn text_lt(a: Seq<char>, b: Seq<char>) -> bool
    decreases a.len(),
{
    if a.len() == 0 {
        b.len() > 0
    } else if b.len() == 0 {
        false
    } else if a[0] != b[0] {
        a[0] < b[0]
    } else {
        text_lt(a.drop_first(), b.drop_first())
    }
}

/// No text comes before itself.
pub proof fn lemma_text_lt_irreflexive(a: Seq<char>)
    ensures
        !text_lt(a, a),
    decreases a.len(),
{
    if a.len() > 0 {
        lemma_text_lt_irreflexive(a.drop_first());
    }
}

/// Coming before is transitive.
pub proof fn lemma_text_lt_transitive(a: Seq<char>, b: Seq<char>, c: Seq<char>)
    requires
        text_lt(a, b),
        text_lt(b, c),
    ensures
        text_lt(a, c),
    decreases a.len(),
{
    if a.len() > 0 && b.len() > 0 && c.len() > 0 {
        if a[0] == b[0] && b[0] == c[0] {
            lemma_text_lt_transitive(a.drop_first(), b.drop_first(), c.drop_first());
        }
    }
}

/// Of two different texts one comes before the other.
pub proof fn lemma_text_lt_total(a: Seq<char>, b: Seq<char>)
    ensures
        a == b || text_lt(a, b) || text_lt(b, a),
    decreases a.len(),
{
    if a.len() > 0 && b.len() > 0 && a[0] == b[0] {
        lemma_text_lt_total(a.drop_first(), b.drop_first());
        if a.drop_first() == b.drop_first() {
            assert(a =~= seq![a[0]] + a.drop_first());
            assert(b =~= seq![b[0]] + b.drop_first());
        }
    } else if a.len() == 0 && b.len() == 0 {
        assert(a =~= b);
    }
}

/// At the first place two texts differ, the one with the smaller character
/// comes first: if `a` and `b` agree before `i` and differ at `i`, then `a`
/// comes before `b` exactly when `a[i] < b[i]`.
pub proof fn text_lt_at_first_difference(a: Seq<char>, b: Seq<char>, i: int)
    requires
        0 <= i < a.len(),
        i < b.len(),
        forall|j: int| 0 <= j < i ==> a[j] == b[j],
        a[i] != b[i],
    ensures
        text_lt(a, b) <==> a[i] < b[i],
        text_lt(b, a) <==> b[i] < a[i],
    decreases i,
{
    if i > 0 {
        assert(a[0] == b[0]);
        assert forall|j: int| 0 <= j < i - 1 implies a.drop_first()[j] == b.drop_first()[j] by {
            assert(a[j + 1] == b[j + 1]);
        }
        text_lt_at_first_difference(a.drop_first(), b.drop_first(), i - 1);
    }
}

/// A text comes before every longer text that starts with it, and never
/// after it.
pub proof fn text_lt_proper_prefix(a: Seq<char>, b: Seq<char>)
    requires
        a.len() < b.len(),
        forall|j: int| 0 <= j < a.len() ==> a[j] == b[j],
    ensures
        text_lt(a, b),
        !text_lt(b, a),
    decreases a.len(),
{
    if a.len() > 0 {
        assert(a[0] == b[0]);
        assert forall|j: int| 0 <= j < a.len() - 1 implies a.drop_first()[j] == b.drop_first()[j] by {
            assert(a[j + 1] == b[j + 1]);
        }
        text_lt_proper_prefix(a.drop_first(), b.drop_first());
    }
}

/// Whether `a` comes before `b`.
pub fn text_less(a: &str, b: &str) -> (r: bool)
    ensures
        r == text_lt(a@, b@),
{
    let x = chars_of(a);
    let y = chars_of(b);
    assert(a@.subrange(0, a@.len() as int) =~= a@);
    assert(b@.subrange(0, b@.len() as int) =~= b@);
    let mut i: usize = 0;
    while i < x.len() && i < y.len() && x[i] == y[i]
        invariant
            x@ == a@,
            y@ == b@,
            i <= x.len(),
            i <= y.len(),
            text_lt(a@, b@) == text_lt(a@.subrange(i as int, a@.len() as int), b@.subrange(
                i as int,
                b@.len() as int,
            )),
        decreases x.len() - i,
    {
        let ghost s = a@.subrange(i as int, a@.len() as int);
        let ghost t = b@.subrange(i as int, b@.len() as int);
        assert(s.drop_first() =~= a@.subrange(i + 1, a@.len() as int));
        assert(t.drop_first() =~= b@.subrange(i + 1, b@.len() as int));
        i = i + 1;
    }
    if i == x.len() {
        i < y.len()
    } else if i == y.len() {
        false
    } else {
        x[i] < y[i]
    }
}

/// `order` lists each of `0..n` once.
pub open spec fn is_permutation(order: Seq<usize>, n: int) -> bool {
    &&& order.len() == n
    &&& forall|i: int| 0 <= i < order.len() ==> #[trigger] order[i] < n
    &&& forall|i: int, j: int|
        0 <= i < j < order.len() ==> #[trigger] order[i] != #[trigger] order[j]
}

/// Taking `keys` in the order `order`, no key comes before one taken earlier.
pub open spec fn is_sorted_by(order: Seq<usize>, keys: Seq<Seq<char>>) -> bool {
    forall|i: int, j: int|
        0 <= i < j < order.len() ==> !text_lt(
            keys[#[trigger] order[j] as int],
            keys[#[trigger] order[i] as int],
        )
}

/// Equal keys keep the order they had.
pub open spec fn is_stable_by(order: Seq<usize>, keys: Seq<Seq<char>>) -> bool {
    forall|i: int, j: int|
        0 <= i < j < order.len() && keys[#[trigger] order[i] as int] == keys[#[trigger] order[j] as int]
            ==> order[i] < order[j]
}

/// The text views of a list of strings.
pub open spec fn views(v: Seq<String>) -> Seq<Seq<char>> {
    Seq::new(v.len(), |i: int| v[i]@)
}

/// The order in which a stable sort by `String::cmp` puts `keys`: each
/// position once, keys not decreasing, equal keys in their first order.
pub fn stable_order(keys: &Vec<String>) -> (order: Vec<usize>)
    ensures
        is_permutation(order@, keys@.len() as int),
        is_sorted_by(order@, views(keys@)),
        is_stable_by(order@, views(keys@)),
{
    let ghost ks = views(keys@);
    let mut order: Vec<usize> = Vec::new();
    let mut k: usize = 0;
    while k < keys.len()
        invariant
            k <= keys.len(),
            ks == views(keys@),
            is_permutation(order@, k as int),
            is_sorted_by(order@, ks),
            is_stable_by(order@, ks),
        decreases keys.len() - k,
    {
        let mut p: usize = 0;
        while p < order.len() && !text_less(keys[k].as_str(), keys[order[p]].as_str())
            invariant
                k < keys.len(),
                ks == views(keys@),
                is_permutation(order@, k as int),
                p <= order.len(),
                forall|q: int| 0 <= q < p ==> !text_lt(ks[k as int], ks[#[trigger] order@[q] as int]),
            decreases order.len() - p,
        {
            p = p + 1;
        }
        let ghost old_order = order@;
        proof {
            assert forall|j: int| p <= j < old_order.len() implies !text_lt(
                ks[#[trigger] old_order[j] as int],
                ks[k as int],
            ) by {
                assert(text_lt(ks[k as int], ks[old_order[p as int] as int]));
                if text_lt(ks[old_order[j] as int], ks[k as int]) {
                    lemma_text_lt_transitive(
                        ks[old_order[j] as int],
                        ks[k as int],
                        ks[old_order[p as int] as int],
                    );
                    if j > p {
                        assert(!text_lt(ks[old_order[j] as int], ks[old_order[p as int] as int]));
                    } else {
                        lemma_text_lt_irreflexive(ks[old_order[j] as int]);
                    }
                }
            }
            assert forall|j: int| p <= j < old_order.len() implies ks[#[trigger] old_order[j] as int]
                != ks[k as int] by {
                assert(text_lt(ks[k as int], ks[old_order[p as int] as int]));
                if ks[old_order[j] as int] == ks[k as int] {
                    if j > p {
                        assert(!text_lt(ks[old_order[j] as int], ks[old_order[p as int] as int]));
                    } else {
                        lemma_text_lt_irreflexive(ks[k as int]);
                    }
                }
            }
        }
        order.insert(p, k);
        proof {
            let n = order@;
            assert(n =~= old_order.subrange(0, p as int).push(k) + old_order.subrange(
                p as int,
                old_order.len() as int,
            ));
            assert forall|i: int| 0 <= i < n.len() implies #[trigger] n[i] < k + 1 by {
                if i < p {
                    assert(n[i] == old_order[i]);
                } else if i > p {
                    assert(n[i] == old_order[i - 1]);
                }
            }
            assert forall|i: int, j: int| 0 <= i < j < n.len() implies #[trigger] n[i]
                != #[trigger] n[j] by {
                if i < p && j < p {
                    assert(n[i] == old_order[i] && n[j] == old_order[j]);
                } else if i < p && j == p {
                    assert(n[i] == old_order[i]);
                } else if i < p && j > p {
                    assert(n[i] == old_order[i] && n[j] == old_order[j - 1]);
                } else if i == p {
                    assert(n[j] == old_order[j - 1]);
                } else {
                    assert(n[i] == old_order[i - 1] && n[j] == old_order[j - 1]);
                }
            }
            assert forall|i: int, j: int| 0 <= i < j < n.len() implies !text_lt(
                ks[#[trigger] n[j] as int],
                ks[#[trigger] n[i] as int],
            ) by {
                if i < p && j < p {
                    assert(n[i] == old_order[i] && n[j] == old_order[j]);
                } else if i < p && j == p {
                    assert(n[i] == old_order[i]);
                } else if i < p && j > p {
                    assert(n[i] == old_order[i] && n[j] == old_order[j - 1]);
                } else if i == p {
                    assert(n[j] == old_order[j - 1]);
                } else {
                    assert(n[i] == old_order[i - 1] && n[j] == old_order[j - 1]);
                }
            }
            assert forall|i: int, j: int|
                0 <= i < j < n.len() && ks[#[trigger] n[i] as int] == ks[#[trigger] n[j] as int]
                    implies n[i] < n[j] by {
                if i < p && j < p {
                    assert(n[i] == old_order[i] && n[j] == old_order[j]);
                } else if i < p && j == p {
                    assert(n[i] == old_order[i]);
                } else if i < p && j > p {
                    assert(n[i] == old_order[i] && n[j] == old_order[j - 1]);
                } else if i == p {
                    assert(n[j] == old_order[j - 1]);
                } else {
                    assert(n[i] == old_order[i - 1] && n[j] == old_order[j - 1]);
                }
            }
        }
        k = k + 1;
    }
    order
}


/// Some of the first `i` positions of `order` is `j`.
pub open spec fn taken(order: Seq<usize>, i: int, j: int) -> bool {
    exists|m: int| 0 <= m < i && #[trigger] order[m] == j
}

/// `r` holds the items of `s` in the order `order` lists their positions.
pub open spec fn arranged<T>(r: Seq<T>, s: Seq<T>, order: Seq<usize>) -> bool {
    &&& r.len() == order.len()
    &&& forall|i: int| 0 <= i < r.len() ==> #[trigger] r[i] == s[order[i] as int]
}

/// `r` is what a stable sort of `s` by `keys` gives: the items of `s`,
/// keys not decreasing, items with equal keys in their first order.
pub open spec fn is_stable_sort<T>(r: Seq<T>, s: Seq<T>, keys: Seq<Seq<char>>) -> bool {
    exists|order: Seq<usize>|
        #![trigger arranged(r, s, order)]
        arranged(r, s, order) && is_permutation(order, s.len() as int) && is_sorted_by(order, keys)
            && is_stable_by(order, keys)
}

/// The items of `items` in the order `order` lists their positions.
pub fn permute<T>(items: Vec<T>, order: &Vec<usize>) -> (r: Vec<T>)
    requires
        is_permutation(order@, items@.len() as int),
    ensures
        arranged(r@, items@, order@),
{
    let ghost orig = items@;
    let n = items.len();
    let mut items = items;
    let mut slots: Vec<Option<T>> = Vec::new();
    while items.len() > 0
        invariant
            n == orig.len(),
            items@.len() + slots@.len() == n,
            items@ == orig.subrange(0, items@.len() as int),
            forall|j: int| 0 <= j < slots@.len() ==> #[trigger] slots@[j] == Some(orig[n - 1 - j]),
        decreases items.len(),
    {
        let x = items.pop().unwrap();
        slots.push(Some(x));
    }
    let mut r: Vec<T> = Vec::new();
    let mut i: usize = 0;
    while i < order.len()
        invariant
            n == orig.len(),
            slots@.len() == n,
            is_permutation(order@, n as int),
            i <= order.len(),
            r@.len() == i,
            forall|k: int| 0 <= k < i ==> #[trigger] r@[k] == orig[order@[k] as int],
            forall|j: int|
                0 <= j < n && !taken(order@, i as int, j) ==> #[trigger] slots@[n - 1 - j] == Some(
                    orig[j],
                ),
        decreases order.len() - i,
    {
        let idx = order[i];
        proof {
            if taken(order@, i as int, idx as int) {
                let m = choose|m: int| 0 <= m < i && #[trigger] order@[m] == idx as int;
                assert(order@[m] != order@[i as int]);
            }
        }
        let mut tmp: Option<T> = None;
        slots.set_and_swap(n - 1 - idx, &mut tmp);
        assert(tmp == Some(orig[idx as int]));
        match tmp {
            Some(x) => {
                r.push(x);
            },
            None => {},
        }
        proof {
            assert forall|j: int|
                0 <= j < n && !taken(order@, i + 1, j) implies #[trigger] slots@[n - 1 - j] == Some(
                orig[j],
            ) by {
                if taken(order@, i as int, j) {
                    let m = choose|m: int| 0 <= m < i && #[trigger] order@[m] == j;
                    assert(order@[m] == j);
                }
                assert(j != idx) by {
                    if j == idx {
                        assert(order@[i as int] == j);
                    }
                }
            }
        }
        i = i + 1;
    }
    r
}

/// `v` back to front.
pub fn reversed<T>(v: Vec<T>) -> (r: Vec<T>)
    ensures
        r@.len() == v@.len(),
        forall|i: int| 0 <= i < r@.len() ==> #[trigger] r@[i] == v@[v@.len() - 1 - i],
{
    let ghost orig = v@;
    let mut v = v;
    let mut r: Vec<T> = Vec::new();
    while v.len() > 0
        invariant
            v@.len() + r@.len() == orig.len(),
            v@ == orig.subrange(0, v@.len() as int),
            forall|j: int| 0 <= j < r@.len() ==> #[trigger] r@[j] == orig[orig.len() - 1 - j],
        decreases v.len(),
    {
        let x = v.pop().unwrap();
        r.push(x);
    }
    r
}

} // verus!
