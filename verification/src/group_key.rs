//! The identity of a group, and the order in which groups stand.

use vstd::prelude::*;
use crate::group_name::GroupName;
use crate::metadata::{metadata_order, AutoGeneratedGroupMetadata, MetadataView};
use crate::metadata::{
    lemma_metadata_order_equal,
    lemma_metadata_order_reverse,
    lemma_metadata_order_transitive,
};
use crate::name::name_order;
use crate::name::{lemma_name_order_equal, lemma_name_order_reverse, lemma_name_order_transitive};
use crate::sorted::obeys_order_laws;
use crate::text::Order;

verus! {

/// What tells one group from another: for an auto-generated group the package and
/// classification that it stands for, for a custom group its name.
#[derive(Debug)]
pub enum GroupKey {
    AutoGenerated(AutoGeneratedGroupMetadata),
    Custom(GroupName),
}

/// The mathematical value of a [`GroupKey`].
pub enum GroupKeyView {
    AutoGenerated(MetadataView),
    Custom(Seq<char>),
}

impl View for GroupKey {
    type V = GroupKeyView;

    open spec fn view(&self) -> GroupKeyView {
        match self {
            GroupKey::AutoGenerated(metadata) => GroupKeyView::AutoGenerated(metadata@),
            GroupKey::Custom(name) => GroupKeyView::Custom(name@),
        }
    }
}

impl DeepView for GroupKey {
    type V = GroupKeyView;

    open spec fn deep_view(&self) -> GroupKeyView {
        self@
    }
}

impl GroupKeyView {
    /// The two keys are the same identity.
    pub open spec fn same(self, other: GroupKeyView) -> bool {
        match (self, other) {
            (GroupKeyView::AutoGenerated(a), GroupKeyView::AutoGenerated(b)) => a.same(b),
            (GroupKeyView::Custom(a), GroupKeyView::Custom(b)) => a == b,
            _ => false,
        }
    }
}

/// The order on groups, by their keys: every auto-generated group before every custom
/// group; auto-generated groups by package and classification, custom groups by name.
pub open spec fn group_order(a: GroupKeyView, b: GroupKeyView) -> Order {
    match (a, b) {
        (GroupKeyView::AutoGenerated(x), GroupKeyView::AutoGenerated(y)) => metadata_order(x, y),
        (GroupKeyView::AutoGenerated(_), GroupKeyView::Custom(_)) => Order::Less,
        (GroupKeyView::Custom(_), GroupKeyView::AutoGenerated(_)) => Order::Greater,
        (GroupKeyView::Custom(x), GroupKeyView::Custom(y)) => name_order(x, y),
    }
}

/// The order on groups, as a comparison to sort by.
pub open spec fn by_key() -> spec_fn(GroupKeyView, GroupKeyView) -> Order {
    |a: GroupKeyView, b: GroupKeyView| group_order(a, b)
}

/// Two keys compare equal exactly when they are the same identity.
pub proof fn lemma_group_order_equal(a: GroupKeyView, b: GroupKeyView)
    ensures
        group_order(a, b) == Order::Equal <==> a.same(b),
{
    match (a, b) {
        (GroupKeyView::AutoGenerated(x), GroupKeyView::AutoGenerated(y)) => {
            lemma_metadata_order_equal(x, y);
        },
        (GroupKeyView::Custom(x), GroupKeyView::Custom(y)) => {
            lemma_name_order_equal(x, y);
        },
        _ => {},
    }
}

/// Exchanging the two keys reverses the outcome.
pub proof fn lemma_group_order_reverse(a: GroupKeyView, b: GroupKeyView)
    ensures
        group_order(b, a) == group_order(a, b).reverse(),
{
    match (a, b) {
        (GroupKeyView::AutoGenerated(x), GroupKeyView::AutoGenerated(y)) => {
            lemma_metadata_order_reverse(x, y);
        },
        (GroupKeyView::Custom(x), GroupKeyView::Custom(y)) => {
            lemma_name_order_reverse(x, y);
        },
        _ => {},
    }
}

/// The order is transitive.
pub proof fn lemma_group_order_transitive(a: GroupKeyView, b: GroupKeyView, c: GroupKeyView)
    requires
        group_order(a, b) != Order::Greater,
        group_order(b, c) != Order::Greater,
    ensures
        group_order(a, c) != Order::Greater,
        group_order(a, b) == Order::Less || group_order(b, c) == Order::Less ==> group_order(a, c)
            == Order::Less,
{
    match (a, b, c) {
        (
            GroupKeyView::AutoGenerated(x),
            GroupKeyView::AutoGenerated(y),
            GroupKeyView::AutoGenerated(z),
        ) => {
            lemma_metadata_order_transitive(x, y, z);
        },
        (GroupKeyView::Custom(x), GroupKeyView::Custom(y), GroupKeyView::Custom(z)) => {
            lemma_name_order_transitive(x, y, z);
        },
        _ => {},
    }
}

/// The order on groups behaves as an order.
pub proof fn lemma_by_key_is_order()
    ensures
        obeys_order_laws(by_key()),
{
    let ord = by_key();
    assert forall|a: GroupKeyView, b: GroupKeyView| #[trigger]
        ord(a, b) == ord(b, a).reverse() by {
        lemma_group_order_reverse(b, a);
    }
    assert forall|a: GroupKeyView, b: GroupKeyView, c: GroupKeyView|
        #![trigger ord(a, b), ord(b, c)]
        ord(a, b) != Order::Greater && ord(b, c) != Order::Greater implies {
            &&& ord(a, c) != Order::Greater
            &&& (ord(a, b) == Order::Less || ord(b, c) == Order::Less) ==> ord(a, c)
                == Order::Less
        } by {
        lemma_group_order_transitive(a, b, c);
    }
}

impl GroupKey {
    /// Compares two keys in the order on groups.
    pub fn compare(&self, other: &GroupKey) -> (r: Order)
        ensures
            r == group_order(self@, other@),
    {
        match (self, other) {
            (GroupKey::AutoGenerated(a), GroupKey::AutoGenerated(b)) => a.compare(b),
            (GroupKey::AutoGenerated(_), GroupKey::Custom(_)) => Order::Less,
            (GroupKey::Custom(_), GroupKey::AutoGenerated(_)) => Order::Greater,
            (GroupKey::Custom(a), GroupKey::Custom(b)) => a.compare(b),
        }
    }
}

impl Clone for GroupKey {
    fn clone(&self) -> (r: Self)
        ensures
            r@ == self@,
    {
        match self {
            GroupKey::AutoGenerated(metadata) => GroupKey::AutoGenerated(metadata.clone()),
            GroupKey::Custom(name) => GroupKey::Custom(name.clone()),
        }
    }
}

} // verus!
