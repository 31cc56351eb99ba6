//! The name of a group.

use std::cmp::Ordering;
use vstd::prelude::*;
use vstd::std_specs::cmp::{PartialEqSpecImpl, PartialOrdSpecImpl};
use vstd::std_specs::convert::FromSpecImpl;
use crate::name::{compare_names, is_auto, is_auto_generated, name_order};
use crate::text::Order;

verus! {

/// The name under which a group is shown and found. Names are ordered by
/// [`name_order`]: auto-generated names first.
#[derive(Debug, Eq, Hash)]
pub struct GroupName(pub String);

impl View for GroupName {
    type V = Seq<char>;

    open spec fn view(&self) -> Seq<char> {
        self.0@
    }
}

impl DeepView for GroupName {
    type V = Seq<char>;

    open spec fn deep_view(&self) -> Seq<char> {
        self@
    }
}

impl GroupName {
    /// The name with the characters of `name`.
    pub fn new(name: &str) -> (r: GroupName)
        ensures
            r@ == name@,
    {
        GroupName(name.to_owned())
    }

    /// The name as a string slice.
    pub fn as_str(&self) -> (r: &str)
        ensures
            r@ == self@,
    {
        self.0.as_str()
    }

    /// Whether the name carries the marker of auto-generated names.
    pub fn is_auto_generated(&self) -> (r: bool)
        ensures
            r == is_auto(self@),
    {
        is_auto_generated(self.0.as_str())
    }

    /// Compares two names in the order on names.
    pub fn compare(&self, other: &GroupName) -> (r: Order)
        ensures
            r == name_order(self@, other@),
    {
        compare_names(self.0.as_str(), other.0.as_str())
    }
}

impl Clone for GroupName {
    fn clone(&self) -> (r: Self)
        ensures
            r@ == self@,
    {
        GroupName(self.0.clone())
    }
}

impl From<String> for GroupName {
    fn from(s: String) -> (r: Self) {
        GroupName(s)
    }
}

impl FromSpecImpl<String> for GroupName {
    open spec fn obeys_from_spec() -> bool {
        true
    }

    open spec fn from_spec(s: String) -> Self {
        GroupName(s)
    }
}

impl PartialEq for GroupName {
    fn eq(&self, other: &Self) -> (r: bool) {
        self.0 == other.0
    }
}

impl PartialEqSpecImpl for GroupName {
    open spec fn obeys_eq_spec() -> bool {
        true
    }

    open spec fn eq_spec(&self, other: &Self) -> bool {
        self@ == other@
    }
}

impl PartialOrd for GroupName {
    fn partial_cmp(&self, other: &Self) -> (r: Option<Ordering>) {
        match self.compare(other) {
            Order::Less => Some(Ordering::Less),
            Order::Equal => Some(Ordering::Equal),
            Order::Greater => Some(Ordering::Greater),
        }
    }
}

impl PartialOrdSpecImpl for GroupName {
    open spec fn obeys_partial_cmp_spec() -> bool {
        true
    }

    open spec fn partial_cmp_spec(&self, other: &Self) -> Option<Ordering> {
        Some(
            match name_order(self@, other@) {
                Order::Less => Ordering::Less,
                Order::Equal => Ordering::Equal,
                Order::Greater => Ordering::Greater,
            },
        )
    }
}

} // verus!
