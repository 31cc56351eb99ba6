//! The identity of an auto-generated group: a package and a classification of its targets.

use std::borrow::Cow;
use std::cmp::Ordering;
use vstd::prelude::*;
use vstd::std_specs::cmp::{PartialEqSpecImpl, PartialOrdSpecImpl};
use vstd::string::StringExecFns;
use crate::group_name::GroupName;
use crate::name::{auto_generated_marker, is_auto, marker};
use crate::target_kind::{kind_order, TargetKind, TargetKindView};
use crate::target_kind::{
    lemma_kind_order_equal,
    lemma_kind_order_reverse,
    lemma_kind_order_transitive,
};
use crate::text::{lex_order, str_order, Order};
use crate::text::{lemma_lex_equal, lemma_lex_reverse, lemma_lex_transitive};

verus! {

/// A package and a classification of its targets: what an auto-generated group stands for.
///
/// Two values are the same identity when the packages have the same name and the
/// classifications are the same; see [`TargetKind`].
#[derive(Debug, Eq)]
pub struct AutoGeneratedGroupMetadata {
    pub package_name: String,
    pub target_kind: TargetKind,
}

/// The mathematical value of an [`AutoGeneratedGroupMetadata`].
pub struct MetadataView {
    pub package_name: Seq<char>,
    pub target_kind: TargetKindView,
}

impl View for AutoGeneratedGroupMetadata {
    type V = MetadataView;

    open spec fn view(&self) -> MetadataView {
        MetadataView { package_name: self.package_name@, target_kind: self.target_kind@ }
    }
}

impl DeepView for AutoGeneratedGroupMetadata {
    type V = MetadataView;

    open spec fn deep_view(&self) -> MetadataView {
        self@
    }
}

impl MetadataView {
    /// The two values are the same identity.
    pub open spec fn same(self, other: MetadataView) -> bool {
        self.package_name == other.package_name && self.target_kind.same(other.target_kind)
    }

    /// The name of the group that stands for this identity: the package, `::`, the
    /// classification, a space and the marker of auto-generated names.
    pub open spec fn group_name(self) -> Seq<char> {
        self.package_name + "::"@ + self.target_kind.display() + " "@ + marker()
    }

    /// The arguments that restrict the test command to this package and classification.
    pub open spec fn scope(self) -> Seq<Seq<char>> {
        match self.target_kind {
            TargetKindView::Bin(name) => seq!["--package"@, self.package_name, "--bin"@, name],
            TargetKindView::Lib(_) => seq!["--package"@, self.package_name, "--lib"@],
            TargetKindView::Test(name) => seq!["--package"@, self.package_name, "--test"@, name],
            TargetKindView::Tests(_) => seq!["--package"@, self.package_name, "--test"@, "*"@],
            TargetKindView::Example(name) => seq![
                "--package"@,
                self.package_name,
                "--example"@,
                name,
            ],
            TargetKindView::Examples(_) => seq!["--package"@, self.package_name, "--examples"@],
        }
    }
}

/// The order on identities: by package name, code point by code point, then by
/// classification.
pub open spec fn metadata_order(a: MetadataView, b: MetadataView) -> Order {
    lex_order(a.package_name, b.package_name).or_by(kind_order(a.target_kind, b.target_kind))
}

/// Two identities compare equal exactly when they are the same identity.
pub proof fn lemma_metadata_order_equal(a: MetadataView, b: MetadataView)
    ensures
        metadata_order(a, b) == Order::Equal <==> a.same(b),
{
    lemma_lex_equal(a.package_name, b.package_name);
    lemma_kind_order_equal(a.target_kind, b.target_kind);
}

/// Exchanging the two identities reverses the outcome.
pub proof fn lemma_metadata_order_reverse(a: MetadataView, b: MetadataView)
    ensures
        metadata_order(b, a) == metadata_order(a, b).reverse(),
{
    lemma_lex_reverse(a.package_name, b.package_name);
    lemma_kind_order_reverse(a.target_kind, b.target_kind);
}

/// The order is transitive.
pub proof fn lemma_metadata_order_transitive(a: MetadataView, b: MetadataView, c: MetadataView)
    requires
        metadata_order(a, b) != Order::Greater,
        metadata_order(b, c) != Order::Greater,
    ensures
        metadata_order(a, c) != Order::Greater,
        metadata_order(a, b) == Order::Less || metadata_order(b, c) == Order::Less
            ==> metadata_order(a, c) == Order::Less,
{
    lemma_lex_transitive(a.package_name, b.package_name, c.package_name);
    lemma_lex_equal(a.package_name, b.package_name);
    lemma_lex_equal(b.package_name, c.package_name);
    lemma_lex_equal(a.package_name, c.package_name);
    if a.package_name == b.package_name && b.package_name == c.package_name {
        lemma_kind_order_transitive(a.target_kind, b.target_kind, c.target_kind);
    }
}

/// The name of a group that stands for an identity carries the marker.
pub proof fn lemma_group_name_is_auto(m: MetadataView)
    ensures
        is_auto(m.group_name()),
{
    let name = m.group_name();
    assert(name.subrange(name.len() - marker().len(), name.len() as int) =~= marker());
}

impl AutoGeneratedGroupMetadata {
    /// The arguments that restrict the test command to this package and classification.
    pub fn to_args(&self) -> (r: Option<Vec<Cow<'static, str>>>)
        ensures
            r is Some,
            r->0.deep_view() == self@.scope(),
    {
        let package: Cow<'static, str> = Cow::Borrowed("--package");
        let package_name: Cow<'static, str> = Cow::Owned(self.package_name.clone());
        let args = match &self.target_kind {
            TargetKind::Bin(target_name) => vec![
                package,
                package_name,
                Cow::Borrowed("--bin"),
                Cow::Owned(target_name.clone()),
            ],
            TargetKind::Lib(_) => vec![package, package_name, Cow::Borrowed("--lib")],
            TargetKind::Test(target_name) => vec![
                package,
                package_name,
                Cow::Borrowed("--test"),
                Cow::Owned(target_name.clone()),
            ],
            TargetKind::Tests(_) => vec![
                package,
                package_name,
                Cow::Borrowed("--test"),
                Cow::Borrowed("*"),
            ],
            TargetKind::Example(target_name) => vec![
                package,
                package_name,
                Cow::Borrowed("--example"),
                Cow::Owned(target_name.clone()),
            ],
            TargetKind::Examples(_) => vec![package, package_name, Cow::Borrowed("--examples")],
        };
        assert(args.deep_view() =~= self@.scope());
        Some(args)
    }

    /// The name of the group that stands for this identity.
    pub fn group_name(&self) -> (r: GroupName)
        ensures
            r@ == self@.group_name(),
    {
        let mut name = self.package_name.clone();
        name.append("::");
        name.append(self.target_kind.to_string().as_str());
        name.append(" ");
        name.append(auto_generated_marker());
        GroupName(name)
    }

    /// Compares two identities in the order on identities.
    pub fn compare(&self, other: &AutoGeneratedGroupMetadata) -> (r: Order)
        ensures
            r == metadata_order(self@, other@),
    {
        match str_order(self.package_name.as_str(), other.package_name.as_str()) {
            Order::Equal => self.target_kind.compare(&other.target_kind),
            order => order,
        }
    }
}

impl Clone for AutoGeneratedGroupMetadata {
    fn clone(&self) -> (r: Self)
        ensures
            r@ == self@,
    {
        AutoGeneratedGroupMetadata {
            package_name: self.package_name.clone(),
            target_kind: self.target_kind.clone(),
        }
    }
}

impl PartialEq for AutoGeneratedGroupMetadata {
    fn eq(&self, other: &Self) -> (r: bool) {
        proof {
            lemma_metadata_order_equal(self@, other@);
        }
        match self.compare(other) {
            Order::Equal => true,
            _ => false,
        }
    }
}

impl PartialEqSpecImpl for AutoGeneratedGroupMetadata {
    open spec fn obeys_eq_spec() -> bool {
        true
    }

    open spec fn eq_spec(&self, other: &Self) -> bool {
        self@.same(other@)
    }
}

impl PartialOrd for AutoGeneratedGroupMetadata {
    fn partial_cmp(&self, other: &Self) -> (r: Option<Ordering>) {
        match self.compare(other) {
            Order::Less => Some(Ordering::Less),
            Order::Equal => Some(Ordering::Equal),
            Order::Greater => Some(Ordering::Greater),
        }
    }
}

impl PartialOrdSpecImpl for AutoGeneratedGroupMetadata {
    open spec fn obeys_partial_cmp_spec() -> bool {
        true
    }

    open spec fn partial_cmp_spec(&self, other: &Self) -> Option<Ordering> {
        Some(
            match metadata_order(self@, other@) {
                Order::Less => Ordering::Less,
                Order::Equal => Ordering::Equal,
                Order::Greater => Ordering::Greater,
            },
        )
    }
}

} // verus!
