//! The classification of a build target.

use std::cmp::Ordering;
use vstd::prelude::*;
use vstd::std_specs::cmp::{PartialEqSpecImpl, PartialOrdSpecImpl};
use crate::text::{clone_strings, concat, lex_order, str_order, Order};
use crate::text::{lemma_lex_equal, lemma_lex_reverse, lemma_lex_transitive};

verus! {

/// What a group of tests is built from: one target of a package, or all its test targets,
/// or all its example targets.
///
/// Two values are the same classification when they are of one variant and, for a single
/// target, name the same target. The members of `Tests` and of `Examples` do not count:
/// all the test targets of a package are one classification, whichever they are.
#[derive(Debug, Eq)]
pub enum TargetKind {
    /// A binary target, by name.
    Bin(String),
    /// The library target, by name.
    Lib(String),
    /// All the test targets of a package, by name.
    Tests(Vec<String>),
    /// One test target, by name.
    Test(String),
    /// All the example targets of a package, by name.
    Examples(Vec<String>),
    /// One example target, by name.
    Example(String),
}

/// The mathematical value of a [`TargetKind`].
pub enum TargetKindView {
    Bin(Seq<char>),
    Lib(Seq<char>),
    Tests(Seq<Seq<char>>),
    Test(Seq<char>),
    Examples(Seq<Seq<char>>),
    Example(Seq<char>),
}

impl View for TargetKind {
    type V = TargetKindView;

    open spec fn view(&self) -> TargetKindView {
        match self {
            TargetKind::Bin(name) => TargetKindView::Bin(name@),
            TargetKind::Lib(name) => TargetKindView::Lib(name@),
            TargetKind::Tests(names) => TargetKindView::Tests(names.deep_view()),
            TargetKind::Test(name) => TargetKindView::Test(name@),
            TargetKind::Examples(names) => TargetKindView::Examples(names.deep_view()),
            TargetKind::Example(name) => TargetKindView::Example(name@),
        }
    }
}

impl DeepView for TargetKind {
    type V = TargetKindView;

    open spec fn deep_view(&self) -> TargetKindView {
        self@
    }
}

impl TargetKindView {
    /// The place of the variant in the precedence
    /// `Bin < Lib < Tests < Test < Examples < Example`.
    pub open spec fn rank(self) -> int {
        match self {
            TargetKindView::Bin(_) => 0,
            TargetKindView::Lib(_) => 1,
            TargetKindView::Tests(_) => 2,
            TargetKindView::Test(_) => 3,
            TargetKindView::Examples(_) => 4,
            TargetKindView::Example(_) => 5,
        }
    }

    /// The target's name for a single target, empty for `Tests` and `Examples`: what
    /// tells two classifications of one variant apart.
    pub open spec fn target_name(self) -> Seq<char> {
        match self {
            TargetKindView::Bin(name) => name,
            TargetKindView::Lib(name) => name,
            TargetKindView::Tests(_) => Seq::empty(),
            TargetKindView::Test(name) => name,
            TargetKindView::Examples(_) => Seq::empty(),
            TargetKindView::Example(name) => name,
        }
    }

    /// The two values are the same classification.
    pub open spec fn same(self, other: TargetKindView) -> bool {
        self.rank() == other.rank() && self.target_name() == other.target_name()
    }

    /// How the classification is written in a group's name. The library writes no target
    /// name: a package has one library.
    pub open spec fn display(self) -> Seq<char> {
        match self {
            TargetKindView::Bin(name) => "bin::"@ + name,
            TargetKindView::Lib(_) => "lib"@,
            TargetKindView::Tests(_) => "tests"@,
            TargetKindView::Test(name) => "test::"@ + name,
            TargetKindView::Examples(_) => "examples"@,
            TargetKindView::Example(name) => "example::"@ + name,
        }
    }
}

/// The order on classifications: by variant, in the precedence
/// `Bin < Lib < Tests < Test < Examples < Example`, then by target name.
pub open spec fn kind_order(a: TargetKindView, b: TargetKindView) -> Order {
    if a.rank() < b.rank() {
        Order::Less
    } else if a.rank() > b.rank() {
        Order::Greater
    } else {
        lex_order(a.target_name(), b.target_name())
    }
}

/// Two classifications compare equal exactly when they are the same classification.
pub proof fn lemma_kind_order_equal(a: TargetKindView, b: TargetKindView)
    ensures
        kind_order(a, b) == Order::Equal <==> a.same(b),
{
    lemma_lex_equal(a.target_name(), b.target_name());
}

/// Exchanging the two classifications reverses the outcome.
pub proof fn lemma_kind_order_reverse(a: TargetKindView, b: TargetKindView)
    ensures
        kind_order(b, a) == kind_order(a, b).reverse(),
{
    lemma_lex_reverse(a.target_name(), b.target_name());
}

/// The order is transitive.
pub proof fn lemma_kind_order_transitive(a: TargetKindView, b: TargetKindView, c: TargetKindView)
    requires
        kind_order(a, b) != Order::Greater,
        kind_order(b, c) != Order::Greater,
    ensures
        kind_order(a, c) != Order::Greater,
        kind_order(a, b) == Order::Less || kind_order(b, c) == Order::Less ==> kind_order(a, c)
            == Order::Less,
{
    if a.rank() == b.rank() && b.rank() == c.rank() {
        lemma_lex_transitive(a.target_name(), b.target_name(), c.target_name());
    }
}

impl TargetKind {
    fn rank(&self) -> (r: u8)
        ensures
            r == self@.rank(),
    {
        match self {
            TargetKind::Bin(_) => 0,
            TargetKind::Lib(_) => 1,
            TargetKind::Tests(_) => 2,
            TargetKind::Test(_) => 3,
            TargetKind::Examples(_) => 4,
            TargetKind::Example(_) => 5,
        }
    }

    /// Compares two classifications in the order on classifications.
    pub fn compare(&self, other: &TargetKind) -> (r: Order)
        ensures
            r == kind_order(self@, other@),
    {
        let rank = self.rank();
        let other_rank = other.rank();
        if rank < other_rank {
            Order::Less
        } else if rank > other_rank {
            Order::Greater
        } else {
            match (self, other) {
                (TargetKind::Bin(a), TargetKind::Bin(b)) => str_order(a.as_str(), b.as_str()),
                (TargetKind::Lib(a), TargetKind::Lib(b)) => str_order(a.as_str(), b.as_str()),
                (TargetKind::Test(a), TargetKind::Test(b)) => str_order(a.as_str(), b.as_str()),
                (TargetKind::Example(a), TargetKind::Example(b)) => str_order(
                    a.as_str(),
                    b.as_str(),
                ),
                _ => Order::Equal,
            }
        }
    }

    /// How the classification is written in a group's name.
    pub fn to_string(&self) -> (r: String)
        ensures
            r@ == self@.display(),
    {
        match self {
            TargetKind::Bin(name) => concat("bin::", name.as_str()),
            TargetKind::Lib(_) => "lib".to_owned(),
            TargetKind::Tests(_) => "tests".to_owned(),
            TargetKind::Test(name) => concat("test::", name.as_str()),
            TargetKind::Examples(_) => "examples".to_owned(),
            TargetKind::Example(name) => concat("example::", name.as_str()),
        }
    }
}

impl Clone for TargetKind {
    fn clone(&self) -> (r: Self)
        ensures
            r@ == self@,
    {
        match self {
            TargetKind::Bin(name) => TargetKind::Bin(name.clone()),
            TargetKind::Lib(name) => TargetKind::Lib(name.clone()),
            TargetKind::Tests(names) => TargetKind::Tests(clone_strings(names)),
            TargetKind::Test(name) => TargetKind::Test(name.clone()),
            TargetKind::Examples(names) => TargetKind::Examples(clone_strings(names)),
            TargetKind::Example(name) => TargetKind::Example(name.clone()),
        }
    }
}

impl PartialEq for TargetKind {
    fn eq(&self, other: &Self) -> (r: bool) {
        proof {
            lemma_kind_order_equal(self@, other@);
        }
        match self.compare(other) {
            Order::Equal => true,
            _ => false,
        }
    }
}

impl PartialEqSpecImpl for TargetKind {
    open spec fn obeys_eq_spec() -> bool {
        true
    }

    open spec fn eq_spec(&self, other: &Self) -> bool {
        self@.same(other@)
    }
}

impl PartialOrd for TargetKind {
    fn partial_cmp(&self, other: &Self) -> (r: Option<Ordering>) {
        match self.compare(other) {
            Order::Less => Some(Ordering::Less),
            Order::Equal => Some(Ordering::Equal),
            Order::Greater => Some(Ordering::Greater),
        }
    }
}

impl PartialOrdSpecImpl for TargetKind {
    open spec fn obeys_partial_cmp_spec() -> bool {
        true
    }

    open spec fn partial_cmp_spec(&self, other: &Self) -> Option<Ordering> {
        Some(
            match kind_order(self@, other@) {
                Order::Less => Ordering::Less,
                Order::Equal => Ordering::Equal,
                Order::Greater => Ordering::Greater,
            },
        )
    }
}

} // verus!
