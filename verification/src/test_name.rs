//! The name of a test.

use std::cmp::Ordering;
use vstd::prelude::*;
use vstd::std_specs::cmp::PartialOrdSpecImpl;
use vstd::std_specs::convert::FromSpecImpl;
use crate::name::{compare_names, is_auto, is_auto_generated, name_order};
use crate::text::Order;

verus! {

/// The name under which a test is shown, and by which the test command finds it. Names are
/// ordered by [`name_order`]: auto-generated names first.
#[derive(Debug, PartialEq, Eq, Hash)]
pub struct TestName(pub String);

impl View for TestName {
    type V = Seq<char>;

    open spec fn view(&self) -> Seq<char> {
        self.0@
    }
}

impl DeepView for TestName {
    type V = Seq<char>;

    open spec fn deep_view(&self) -> Seq<char> {
        self@
    }
}

impl TestName {
    /// The name with the characters of `name`.
    pub fn new(name: &str) -> (r: TestName)
        ensures
            r@ == name@,
    {
        TestName(name.to_owned())
    }

    /// The name as a string slice.
    pub fn as_str(&self) -> (r: &str)
        ensures
            r@ == self@,
    {
        self.0.as_str()
    }

    /// Whether the name carries the marker of auto-generated names.
    pub fn is_auto_generated(&self) -> (r: bool)
        ensures
            r == is_auto(self@),
    {
        is_auto_generated(self.0.as_str())
    }

    /// Compares two names in the order on names.
    pub fn compare(&self, other: &TestName) -> (r: Order)
        ensures
            r == name_order(self@, other@),
    {
        compare_names(self.0.as_str(), other.0.as_str())
    }
}

impl Clone for TestName {
    fn clone(&self) -> (r: Self)
        ensures
            r@ == self@,
    {
        TestName(self.0.clone())
    }
}

impl From<String> for TestName {
    fn from(s: String) -> (r: Self) {
        TestName(s)
    }
}

impl FromSpecImpl<String> for TestName {
    open spec fn obeys_from_spec() -> bool {
        true
    }

    open spec fn from_spec(s: String) -> Self {
        TestName(s)
    }
}

impl PartialOrd for TestName {
    fn partial_cmp(&self, other: &Self) -> (r: Option<Ordering>) {
        match self.compare(other) {
            Order::Less => Some(Ordering::Less),
            Order::Equal => Some(Ordering::Equal),
            Order::Greater => Some(Ordering::Greater),
        }
    }
}

impl PartialOrdSpecImpl for TestName {
    open spec fn obeys_partial_cmp_spec() -> bool {
        true
    }

    open spec fn partial_cmp_spec(&self, other: &Self) -> Option<Ordering> {
        Some(
            match name_order(self@, other@) {
                Order::Less => Ordering::Less,
                Order::Equal => Ordering::Equal,
                Order::Greater => Ordering::Greater,
            },
        )
    }
}

} // verus!
