//! A test of a group: a named test, or what stands for a whole target.

use std::borrow::Cow;
use std::cmp::Ordering;
use vstd::prelude::*;
use vstd::std_specs::cmp::PartialOrdSpecImpl;
use vstd::string::StringExecFns;
use crate::cargo::{binary_arguments, scope_arguments, CargoTestArgs};
use crate::name::{auto_generated_marker, marker, name_order};
use crate::test_name::TestName;
use crate::text::{concat, Order};

verus! {

/// One entry of a group's list of tests.
#[derive(Debug, PartialEq, Eq, Hash)]
pub enum Test {
    /// A test that the test command lists, by its name.
    Named(TestName),
    /// All the tests of one test target of a package.
    IntegrationTarget { package_name: String, target_name: String },
    /// One example target among all the examples of a package.
    Examples { package_name: String, target_name: String },
    /// The example target of a group that stands for one example.
    Example { package_name: String, target_name: String },
}

/// The mathematical value of a [`Test`].
pub enum TestView {
    Named(Seq<char>),
    IntegrationTarget { package_name: Seq<char>, target_name: Seq<char> },
    Examples { package_name: Seq<char>, target_name: Seq<char> },
    Example { package_name: Seq<char>, target_name: Seq<char> },
}

impl View for Test {
    type V = TestView;

    open spec fn view(&self) -> TestView {
        match self {
            Test::Named(name) => TestView::Named(name@),
            Test::IntegrationTarget { package_name, target_name } => TestView::IntegrationTarget {
                package_name: package_name@,
                target_name: target_name@,
            },
            Test::Examples { package_name, target_name } => TestView::Examples {
                package_name: package_name@,
                target_name: target_name@,
            },
            Test::Example { package_name, target_name } => TestView::Example {
                package_name: package_name@,
                target_name: target_name@,
            },
        }
    }
}

impl DeepView for Test {
    type V = TestView;

    open spec fn deep_view(&self) -> TestView {
        self@
    }
}

impl TestView {
    /// The name under which the test is shown, and by which tests are ordered.
    pub open spec fn name(self) -> Seq<char> {
        match self {
            TestView::Named(name) => name,
            TestView::IntegrationTarget { package_name, target_name } => package_name + "::"@
                + target_name + " "@ + marker(),
            TestView::Examples { package_name, target_name } => package_name + "::"@ + target_name
                + "::main"@,
            TestView::Example { .. } => "main "@ + marker(),
        }
    }

    /// The arguments that restrict the test command to this test.
    pub open spec fn scope(self) -> Seq<Seq<char>> {
        match self {
            TestView::Named(name) => seq![name],
            TestView::IntegrationTarget { package_name, target_name } => seq![
                "--package"@,
                package_name,
                "--test"@,
                target_name,
            ],
            TestView::Examples { package_name, .. } => seq![
                "--package"@,
                package_name,
                "--examples"@,
            ],
            TestView::Example { package_name, target_name } => seq![
                "--package"@,
                package_name,
                "--example"@,
                target_name,
            ],
        }
    }

    /// What the test binaries are told: to match a named test's name exactly.
    pub open spec fn binary_options(self) -> Seq<Seq<char>> {
        match self {
            TestView::Named(_) => seq!["--exact"@],
            _ => seq![],
        }
    }
}

impl Test {
    /// The name under which the test is shown.
    pub fn name(&self) -> (r: Cow<'_, TestName>)
        ensures
            r@ == self@.name(),
    {
        match self {
            Test::Named(name) => Cow::Borrowed(name),
            Test::IntegrationTarget { package_name, target_name } => {
                let mut name = package_name.clone();
                name.append("::");
                name.append(target_name.as_str());
                name.append(" ");
                name.append(auto_generated_marker());
                Cow::Owned(TestName(name))
            },
            Test::Examples { package_name, target_name } => {
                let mut name = package_name.clone();
                name.append("::");
                name.append(target_name.as_str());
                name.append("::main");
                Cow::Owned(TestName(name))
            },
            Test::Example { .. } => Cow::Owned(TestName(concat("main ", auto_generated_marker()))),
        }
    }

    /// What decides the arguments of a run of this test alone: the defaults, with the test's
    /// scope, and for a named test the demand that its name match exactly.
    pub fn to_cargo_test_args(&self) -> (r: CargoTestArgs<'_>)
        ensures
            r.cargo_program@ == "cargo"@,
            r.color,
            !r.list,
            !r.fail_fast,
            r.args is Some,
            scope_arguments(r.args) == self@.scope(),
            self@ is Named <==> r.test_args is Some,
            binary_arguments(r.test_args) == self@.binary_options(),
    {
        match self {
            Test::Named(test_name) => {
                let args: Vec<Cow<'static, str>> = vec![Cow::Owned(test_name.0.clone())];
                assert(args.deep_view() =~= self@.scope());
                let test_args: &'static [&'static str] = &["--exact"];
                assert(test_args.deep_view() =~= seq!["--exact"@]);
                CargoTestArgs {
                    cargo_program: "cargo",
                    color: true,
                    list: false,
                    fail_fast: false,
                    args: Some(Cow::Owned(args)),
                    test_args: Some(test_args),
                }
            },
            Test::IntegrationTarget { package_name, target_name } => {
                let args: Vec<Cow<'static, str>> = vec![
                    Cow::Borrowed("--package"),
                    Cow::Owned(package_name.clone()),
                    Cow::Borrowed("--test"),
                    Cow::Owned(target_name.clone()),
                ];
                assert(args.deep_view() =~= self@.scope());
                CargoTestArgs {
                    cargo_program: "cargo",
                    color: true,
                    list: false,
                    fail_fast: false,
                    args: Some(Cow::Owned(args)),
                    test_args: None,
                }
            },
            Test::Examples { package_name, .. } => {
                let args: Vec<Cow<'static, str>> = vec![
                    Cow::Borrowed("--package"),
                    Cow::Owned(package_name.clone()),
                    Cow::Borrowed("--examples"),
                ];
                assert(args.deep_view() =~= self@.scope());
                CargoTestArgs {
                    cargo_program: "cargo",
                    color: true,
                    list: false,
                    fail_fast: false,
                    args: Some(Cow::Owned(args)),
                    test_args: None,
                }
            },
            Test::Example { package_name, target_name } => {
                let args: Vec<Cow<'static, str>> = vec![
                    Cow::Borrowed("--package"),
                    Cow::Owned(package_name.clone()),
                    Cow::Borrowed("--example"),
                    Cow::Owned(target_name.clone()),
                ];
                assert(args.deep_view() =~= self@.scope());
                CargoTestArgs {
                    cargo_program: "cargo",
                    color: true,
                    list: false,
                    fail_fast: false,
                    args: Some(Cow::Owned(args)),
                    test_args: None,
                }
            },
        }
    }

    /// Compares two tests by their names, in the order on names.
    pub fn compare(&self, other: &Test) -> (r: Order)
        ensures
            r == name_order(self@.name(), other@.name()),
    {
        let name = self.name();
        let other_name = other.name();
        test_name(&name).compare(test_name(&other_name))
    }
}

/// The name that a borrowed-or-owned name holds.
pub fn test_name<'b>(name: &'b Cow<'_, TestName>) -> (r: &'b TestName)
    ensures
        r@ == name@,
{
    match name {
        Cow::Borrowed(b) => b,
        Cow::Owned(o) => o,
    }
}

impl Clone for Test {
    fn clone(&self) -> (r: Self)
        ensures
            r@ == self@,
    {
        match self {
            Test::Named(name) => Test::Named(name.clone()),
            Test::IntegrationTarget { package_name, target_name } => Test::IntegrationTarget {
                package_name: package_name.clone(),
                target_name: target_name.clone(),
            },
            Test::Examples { package_name, target_name } => Test::Examples {
                package_name: package_name.clone(),
                target_name: target_name.clone(),
            },
            Test::Example { package_name, target_name } => Test::Example {
                package_name: package_name.clone(),
                target_name: target_name.clone(),
            },
        }
    }
}

impl PartialOrd for Test {
    fn partial_cmp(&self, other: &Self) -> (r: Option<Ordering>) {
        match self.compare(other) {
            Order::Less => Some(Ordering::Less),
            Order::Equal => Some(Ordering::Equal),
            Order::Greater => Some(Ordering::Greater),
        }
    }
}

impl PartialOrdSpecImpl for Test {
    open spec fn obeys_partial_cmp_spec() -> bool {
        true
    }

    open spec fn partial_cmp_spec(&self, other: &Self) -> Option<Ordering> {
        Some(
            match name_order(self@.name(), other@.name()) {
                Order::Less => Ordering::Less,
                Order::Equal => Ordering::Equal,
                Order::Greater => Ordering::Greater,
            },
        )
    }
}

} // verus!
