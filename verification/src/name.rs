//! The order on names: auto-generated names first, then code point by code point.

use vstd::prelude::*;
use crate::sorted::obeys_order_laws;
use crate::text::{has_suffix, lex_order, str_ends_with, str_order, Order};
use crate::text::{lemma_lex_equal, lemma_lex_reverse, lemma_lex_transitive};

verus! {

/// What the name of an auto-generated group or test ends with.
pub const AUTO_GENERATED_MARKER: &'static str = "[auto]";

/// The characters of [`AUTO_GENERATED_MARKER`].
pub open spec fn marker() -> Seq<char> {
    seq!['[', 'a', 'u', 't', 'o', ']']
}

/// A name is auto-generated when it ends with the marker.
pub open spec fn is_auto(name: Seq<char>) -> bool {
    has_suffix(name, marker())
}

/// The order on names. A name with the marker comes before every name without it; two names
/// that both have it, or both lack it, compare code point by code point.
pub open spec fn name_order(a: Seq<char>, b: Seq<char>) -> Order {
    if is_auto(a) && !is_auto(b) {
        Order::Less
    } else if !is_auto(a) && is_auto(b) {
        Order::Greater
    } else {
        lex_order(a, b)
    }
}

/// `a` comes strictly before `b`.
pub open spec fn name_lt(a: Seq<char>, b: Seq<char>) -> bool {
    name_order(a, b) == Order::Less
}

/// Of `a < b`, `a == b` and `b < a` exactly one holds.
pub proof fn lemma_name_order_trichotomy(a: Seq<char>, b: Seq<char>)
    ensures
        name_lt(a, b) || a == b || name_lt(b, a),
        !(name_lt(a, b) && a == b),
        !(name_lt(a, b) && name_lt(b, a)),
        !(a == b && name_lt(b, a)),
{
    lemma_name_order_equal(a, b);
    lemma_name_order_equal(b, a);
    lemma_name_order_reverse(a, b);
}

/// A name with the marker comes before a name without it, whatever their characters.
pub proof fn lemma_auto_generated_first(a: Seq<char>, b: Seq<char>)
    requires
        is_auto(a),
        !is_auto(b),
    ensures
        name_lt(a, b),
        !name_lt(b, a),
{
}

/// Two names compare equal exactly when they are the same.
pub proof fn lemma_name_order_equal(a: Seq<char>, b: Seq<char>)
    ensures
        name_order(a, b) == Order::Equal <==> a == b,
{
    lemma_lex_equal(a, b);
}

/// Exchanging the two names reverses the outcome.
pub proof fn lemma_name_order_reverse(a: Seq<char>, b: Seq<char>)
    ensures
        name_order(b, a) == name_order(a, b).reverse(),
{
    lemma_lex_reverse(a, b);
}

/// The order is transitive.
pub proof fn lemma_name_order_transitive(a: Seq<char>, b: Seq<char>, c: Seq<char>)
    requires
        name_order(a, b) != Order::Greater,
        name_order(b, c) != Order::Greater,
    ensures
        name_order(a, c) != Order::Greater,
        name_lt(a, b) || name_lt(b, c) ==> name_lt(a, c),
{
    if is_auto(a) == is_auto(b) && is_auto(b) == is_auto(c) {
        lemma_lex_transitive(a, b, c);
    }
}

/// The order on names, as a comparison to sort by.
pub open spec fn by_name() -> spec_fn(Seq<char>, Seq<char>) -> Order {
    |a: Seq<char>, b: Seq<char>| name_order(a, b)
}

/// The order on names behaves as an order.
pub proof fn lemma_by_name_is_order()
    ensures
        obeys_order_laws(by_name()),
{
    let ord = by_name();
    assert forall|a: Seq<char>, b: Seq<char>| #[trigger] ord(a, b) == ord(b, a).reverse() by {
        lemma_name_order_reverse(b, a);
    }
    assert forall|a: Seq<char>, b: Seq<char>, c: Seq<char>|
        #![trigger ord(a, b), ord(b, c)]
        ord(a, b) != Order::Greater && ord(b, c) != Order::Greater implies {
            &&& ord(a, c) != Order::Greater
            &&& (ord(a, b) == Order::Less || ord(b, c) == Order::Less) ==> ord(a, c)
                == Order::Less
        } by {
        lemma_name_order_transitive(a, b, c);
    }
}

/// The marker.
pub fn auto_generated_marker() -> (r: &'static str)
    ensures
        r@ == marker(),
{
    proof {
        reveal_strlit("[auto]");
        assert("[auto]"@ =~= marker());
    }
    AUTO_GENERATED_MARKER
}

/// Whether `name` ends with the marker.
pub fn is_auto_generated(name: &str) -> (r: bool)
    ensures
        r == is_auto(name@),
{
    str_ends_with(name, auto_generated_marker())
}

/// Compares two names in the order on names.
pub fn compare_names(a: &str, b: &str) -> (r: Order)
    ensures
        r == name_order(a@, b@),
{
    let a_auto = is_auto_generated(a);
    let b_auto = is_auto_generated(b);
    if a_auto && !b_auto {
        Order::Less
    } else if !a_auto && b_auto {
        Order::Greater
    } else {
        str_order(a, b)
    }
}

} // verus!
