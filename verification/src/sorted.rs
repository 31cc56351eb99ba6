//! Sequences kept in strictly ascending order of a three-way comparison.

use vstd::prelude::*;
use crate::text::Order;

verus! {

/// The comparison behaves as an order: exchanging its two sides reverses the outcome, and
/// it is transitive, also through `Equal` on either side.
pub open spec fn obeys_order_laws<K>(ord: spec_fn(K, K) -> Order) -> bool {
    &&& forall|a: K, b: K| #[trigger] ord(a, b) == ord(b, a).reverse()
    &&& forall|a: K, b: K, c: K|
        #![trigger ord(a, b), ord(b, c)]
        ord(a, b) != Order::Greater && ord(b, c) != Order::Greater ==> {
            &&& ord(a, c) != Order::Greater
            &&& (ord(a, b) == Order::Less || ord(b, c) == Order::Less) ==> ord(a, c)
                == Order::Less
        }
}

/// Each element comes strictly before every later one.
pub open spec fn strictly_sorted<K>(s: Seq<K>, ord: spec_fn(K, K) -> Order) -> bool {
    forall|i: int, j: int| 0 <= i < j < s.len() ==> ord(s[i], s[j]) == Order::Less
}

/// The number of elements at the start of `s` that come strictly before `k`. In a sorted
/// sequence that is the place of `k`, if it is there, and the place to insert it, if not.
pub open spec fn lower_bound<K>(s: Seq<K>, k: K, ord: spec_fn(K, K) -> Order) -> int
    decreases s.len(),
{
    if s.len() == 0 || ord(s[0], k) != Order::Less {
        0
    } else {
        1 + lower_bound(s.drop_first(), k, ord)
    }
}

/// `s` holds an element that compares equal to `k`.
pub open spec fn holds<K>(s: Seq<K>, k: K, ord: spec_fn(K, K) -> Order) -> bool {
    exists|i: int| 0 <= i < s.len() && ord(#[trigger] s[i], k) == Order::Equal
}

/// What `lower_bound` gives: everything before it comes strictly before `k`, and what
/// stands at it does not.
pub proof fn lemma_lower_bound<K>(s: Seq<K>, k: K, ord: spec_fn(K, K) -> Order)
    ensures
        0 <= lower_bound(s, k, ord) <= s.len(),
        forall|j: int| 0 <= j < lower_bound(s, k, ord) ==> ord(#[trigger] s[j], k) == Order::Less,
        lower_bound(s, k, ord) < s.len() ==> ord(s[lower_bound(s, k, ord)], k) != Order::Less,
    decreases s.len(),
{
    if s.len() > 0 && ord(s[0], k) == Order::Less {
        let rest = s.drop_first();
        lemma_lower_bound(rest, k, ord);
        assert forall|j: int| 0 <= j < lower_bound(s, k, ord) implies ord(#[trigger] s[j], k)
            == Order::Less by {
            if j > 0 {
                assert(s[j] == rest[j - 1]);
            }
        }
    }
}

/// A place with everything before it strictly before `k`, and with an element that is not,
/// or none, is the place that `lower_bound` gives.
pub proof fn lemma_lower_bound_is<K>(s: Seq<K>, k: K, ord: spec_fn(K, K) -> Order, i: int)
    requires
        0 <= i <= s.len(),
        forall|j: int| 0 <= j < i ==> ord(#[trigger] s[j], k) == Order::Less,
        i < s.len() ==> ord(s[i], k) != Order::Less,
    ensures
        lower_bound(s, k, ord) == i,
    decreases i,
{
    if i > 0 {
        let rest = s.drop_first();
        assert(ord(s[0], k) == Order::Less);
        assert forall|j: int| 0 <= j < i - 1 implies ord(#[trigger] rest[j], k)
            == Order::Less by {
            assert(rest[j] == s[j + 1]);
        }
        lemma_lower_bound_is(rest, k, ord, i - 1);
    }
}

/// In a sorted sequence an element that compares equal to `k` stands where `lower_bound`
/// says, and nowhere else.
pub proof fn lemma_found_at_lower_bound<K>(s: Seq<K>, k: K, ord: spec_fn(K, K) -> Order, i: int)
    requires
        obeys_order_laws(ord),
        strictly_sorted(s, ord),
        0 <= i < s.len(),
        ord(s[i], k) == Order::Equal,
    ensures
        lower_bound(s, k, ord) == i,
{
    assert forall|j: int| 0 <= j < i implies ord(#[trigger] s[j], k) == Order::Less by {
        assert(ord(s[j], s[i]) == Order::Less);
    }
    lemma_lower_bound_is(s, k, ord, i);
}

/// A sorted sequence holds an element equal to `k` exactly when the one at `lower_bound`
/// is equal to it.
pub proof fn lemma_holds<K>(s: Seq<K>, k: K, ord: spec_fn(K, K) -> Order)
    requires
        obeys_order_laws(ord),
        strictly_sorted(s, ord),
    ensures
        holds(s, k, ord) <==> (lower_bound(s, k, ord) < s.len() && ord(
            s[lower_bound(s, k, ord)],
            k,
        ) == Order::Equal),
{
    lemma_lower_bound(s, k, ord);
    if holds(s, k, ord) {
        let i = choose|i: int| 0 <= i < s.len() && ord(#[trigger] s[i], k) == Order::Equal;
        lemma_found_at_lower_bound(s, k, ord, i);
    }
}

/// Inserting `k` at its `lower_bound` keeps a sequence sorted, where no element of it is
/// equal to `k`.
pub proof fn lemma_insert_sorted<K>(s: Seq<K>, k: K, ord: spec_fn(K, K) -> Order)
    requires
        obeys_order_laws(ord),
        strictly_sorted(s, ord),
        !holds(s, k, ord),
    ensures
        strictly_sorted(s.insert(lower_bound(s, k, ord), k), ord),
{
    let i = lower_bound(s, k, ord);
    let t = s.insert(i, k);
    lemma_lower_bound(s, k, ord);
    assert forall|a: int, b: int| 0 <= a < b < t.len() implies ord(t[a], t[b])
        == Order::Less by {
        if b < i {
            assert(t[a] == s[a] && t[b] == s[b]);
        } else if b == i {
            assert(t[a] == s[a]);
        } else if a == i {
            // k before s[b - 1], which is at or after s[i]
            assert(t[b] == s[b - 1]);
            assert(ord(s[i], k) != Order::Less);
            assert(ord(s[i], k) != Order::Equal);
            assert(ord(k, s[i]) == ord(s[i], k).reverse());
            if b - 1 > i {
                assert(ord(s[i], s[b - 1]) == Order::Less);
            }
        } else if a < i {
            assert(t[a] == s[a] && t[b] == s[b - 1]);
        } else {
            assert(t[a] == s[a - 1] && t[b] == s[b - 1]);
        }
    }
}

/// Replacing an element by one that compares equal to it keeps a sequence sorted.
pub proof fn lemma_update_sorted<K>(s: Seq<K>, i: int, k: K, ord: spec_fn(K, K) -> Order)
    requires
        obeys_order_laws(ord),
        strictly_sorted(s, ord),
        0 <= i < s.len(),
        ord(s[i], k) == Order::Equal,
    ensures
        strictly_sorted(s.update(i, k), ord),
{
    let t = s.update(i, k);
    assert(ord(k, s[i]) == ord(s[i], k).reverse());
    assert forall|a: int, b: int| 0 <= a < b < t.len() implies ord(t[a], t[b])
        == Order::Less by {
        assert(ord(s[a], s[b]) == Order::Less);
        if a == i {
            assert(ord(k, s[i]) != Order::Greater && ord(s[i], s[b]) != Order::Greater);
        } else if b == i {
            assert(ord(s[a], s[i]) != Order::Greater && ord(s[i], k) != Order::Greater);
        }
    }
}

/// Appending an element that every element comes strictly before keeps a sequence sorted.
pub proof fn lemma_push_sorted<K>(s: Seq<K>, k: K, ord: spec_fn(K, K) -> Order)
    requires
        strictly_sorted(s, ord),
        forall|j: int| 0 <= j < s.len() ==> ord(#[trigger] s[j], k) == Order::Less,
    ensures
        strictly_sorted(s.push(k), ord),
{
}

} // verus!
