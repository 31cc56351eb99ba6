//! Groups that stand for a package and a classification of its targets.

use std::borrow::Cow;
use vstd::prelude::*;
use crate::cargo::{scope_arguments, CargoTestArgs};
use crate::group_name::GroupName;
use crate::metadata::{AutoGeneratedGroupMetadata, MetadataView};
use crate::target_kind::TargetKindView;
use crate::test_item::{Test, TestView};
use crate::test_list::{sort_tests, sorted_tests, tests_sorted};

verus! {

/// A group made from the workspace: its name, what it stands for, its tests in ascending
/// order of their names, and what its last run printed.
#[derive(Debug)]
pub struct AutoGeneratedGroup {
    name: GroupName,
    metadata: AutoGeneratedGroupMetadata,
    tests: Vec<Test>,
    output: Option<Vec<String>>,
}

/// The mathematical value of an [`AutoGeneratedGroup`].
pub struct AutoGroupView {
    pub name: Seq<char>,
    pub metadata: MetadataView,
    pub tests: Seq<TestView>,
    pub output: Option<Seq<Seq<char>>>,
}

/// The tests that stand for whole targets: one for each test target of a `Tests`, one for
/// each example target of an `Examples`, one for the target of an `Example`.
pub open spec fn target_tests(metadata: MetadataView) -> Seq<TestView> {
    match metadata.target_kind {
        TargetKindView::Tests(names) => names.map_values(
            |target_name: Seq<char>|
                TestView::IntegrationTarget { package_name: metadata.package_name, target_name },
        ),
        TargetKindView::Examples(names) => names.map_values(
            |target_name: Seq<char>|
                TestView::Examples { package_name: metadata.package_name, target_name },
        ),
        TargetKindView::Example(target_name) => seq![
            TestView::Example { package_name: metadata.package_name, target_name },
        ],
        _ => seq![],
    }
}

impl View for AutoGeneratedGroup {
    type V = AutoGroupView;

    closed spec fn view(&self) -> AutoGroupView {
        AutoGroupView {
            name: self.name@,
            metadata: self.metadata@,
            tests: self.tests.deep_view(),
            output: self.output.deep_view(),
        }
    }
}

impl DeepView for AutoGeneratedGroup {
    type V = AutoGroupView;

    open spec fn deep_view(&self) -> AutoGroupView {
        self@
    }
}

impl AutoGroupView {
    /// What every group holds: its name is the one that its identity gives, and its tests
    /// stand in strictly ascending order of their names.
    pub open spec fn well_formed(self) -> bool {
        &&& self.name == self.metadata.group_name()
        &&& tests_sorted(self.tests)
    }
}

impl AutoGeneratedGroup {
    #[verifier::type_invariant]
    spec fn inv(&self) -> bool {
        self@.well_formed()
    }

    /// A group of the given tests, sorted, with nothing printed yet. The name is the one
    /// that the identity gives.
    pub fn new(metadata: AutoGeneratedGroupMetadata, tests: Vec<Test>) -> (r: Self)
        ensures
            r@ == (AutoGroupView {
                name: metadata@.group_name(),
                metadata: metadata@,
                tests: sorted_tests(tests.deep_view()),
                output: None,
            }),
            r@.well_formed(),
    {
        let name = metadata.group_name();
        let tests = sort_tests(&tests);
        let output: Option<Vec<String>> = None;
        AutoGeneratedGroup { name, metadata, tests, output }
    }

    /// The group of an identity before its tests are known.
    pub fn empty_from_metadata(metadata: AutoGeneratedGroupMetadata) -> (r: Self)
        ensures
            r@ == (AutoGroupView {
                name: metadata@.group_name(),
                metadata: metadata@,
                tests: seq![],
                output: None,
            }),
            r@.well_formed(),
    {
        let tests: Vec<Test> = Vec::new();
        assert(tests.deep_view() =~= seq![]);
        Self::new(metadata, tests)
    }

    /// The group's name.
    pub fn name(&self) -> (r: Cow<'_, GroupName>)
        ensures
            r@ == self@.name,
            self@.well_formed(),
    {
        proof {
            use_type_invariant(self);
        }
        Cow::Borrowed(&self.name)
    }

    /// What the group stands for.
    pub fn metadata(&self) -> (r: &AutoGeneratedGroupMetadata)
        ensures
            r@ == self@.metadata,
    {
        &self.metadata
    }

    /// The group's tests, in ascending order of their names.
    pub fn tests(&self) -> (r: &[Test])
        ensures
            r.deep_view() == self@.tests,
            tests_sorted(self@.tests),
    {
        proof {
            use_type_invariant(self);
        }
        self.tests.as_slice()
    }

    /// What the last run has printed so far, none before the first line.
    pub fn output(&self) -> (r: Option<&[String]>)
        ensures
            r.deep_view() == self@.output,
    {
        match &self.output {
            Some(lines) => Some(lines.as_slice()),
            None => None,
        }
    }

    /// Puts `output` in the place of what the last run printed, and hands back what was
    /// there.
    pub fn replace_output(&mut self, output: Option<Vec<String>>) -> (r: Option<Vec<String>>)
        ensures
            final(self)@ == (AutoGroupView { output: output.deep_view(), ..old(self)@ }),
            r.deep_view() == old(self)@.output,
    {
        proof {
            use_type_invariant(&*self);
        }
        let mut output = output;
        core::mem::swap(&mut self.output, &mut output);
        output
    }

    /// Forgets what the last run printed.
    pub fn reset_output(&mut self)
        ensures
            final(self)@ == (AutoGroupView { output: None, ..old(self)@ }),
    {
        proof {
            use_type_invariant(&*self);
        }
        self.output = None;
    }

    /// Adds a line to what the run has printed.
    pub fn push_output(&mut self, line: String)
        ensures
            final(self)@ == (AutoGroupView {
                output: Some(pushed_line(old(self)@.output, line@)),
                ..old(self)@
            }),
    {
        proof {
            use_type_invariant(&*self);
        }
        let mut output: Option<Vec<String>> = None;
        core::mem::swap(&mut self.output, &mut output);
        let mut lines = match output {
            Some(lines) => lines,
            None => Vec::new(),
        };
        let ghost before = lines.deep_view();
        assert(old(self)@.output is None ==> before =~= seq![]);
        lines.push(line);
        assert(lines.deep_view() =~= before.push(line@));
        assert(lines.deep_view() =~= pushed_line(old(self)@.output, line@));
        self.output = Some(lines);
    }

    /// Takes the tests, and the identity, of `group`: the tests of this group are replaced
    /// by those of `group`, and what this group has printed stays. Where `group` is of the
    /// same identity, the name stays too.
    pub fn update_group(&mut self, group: AutoGeneratedGroup)
        ensures
            final(self)@ == (AutoGroupView { output: old(self)@.output, ..group@ }),
            final(self)@.well_formed(),
            group@.metadata.same(old(self)@.metadata) ==> final(self)@.name == old(self)@.name,
    {
        proof {
            use_type_invariant(&*self);
            use_type_invariant(&group);
            if group@.metadata.same(self@.metadata) {
                lemma_same_identity_same_name(group@.metadata, self@.metadata);
            }
        }
        let mut output: Option<Vec<String>> = None;
        core::mem::swap(&mut self.output, &mut output);
        let AutoGeneratedGroup { name, metadata, tests, output: _ } = group;
        *self = AutoGeneratedGroup { name, metadata, tests, output };
    }

    /// What decides the arguments of a run of the whole group: the defaults, with the
    /// scope of the package and classification.
    pub fn to_cargo_test_args(&self) -> (r: CargoTestArgs<'_>)
        ensures
            r.cargo_program@ == "cargo"@,
            r.color,
            !r.list,
            !r.fail_fast,
            r.args is Some,
            scope_arguments(r.args) == self@.metadata.scope(),
            r.test_args is None,
    {
        let args = match self.metadata.to_args() {
            Some(args) => Some(Cow::Owned(args)),
            None => None,
        };
        CargoTestArgs {
            cargo_program: "cargo",
            color: true,
            list: false,
            fail_fast: false,
            args,
            test_args: None,
        }
    }
}

/// What a run has printed after one more line.
pub open spec fn pushed_line(output: Option<Seq<Seq<char>>>, line: Seq<char>) -> Seq<Seq<char>> {
    match output {
        Some(lines) => lines.push(line),
        None => seq![line],
    }
}

/// Identities that are the same give the same group name.
pub proof fn lemma_same_identity_same_name(a: MetadataView, b: MetadataView)
    requires
        a.same(b),
    ensures
        a.group_name() == b.group_name(),
{
    assert(a.target_kind.display() == b.target_kind.display());
}

} // verus!
