//! Groups that the user has put together.

use std::borrow::Cow;
use vstd::prelude::*;
use crate::auto_group::pushed_line;
use crate::group_name::GroupName;
use crate::test_item::{Test, TestView};
use crate::test_list::{sort_tests, sorted_tests, tests_sorted};

verus! {

/// A group of the user's own: its name, its tests in ascending order of their names, and
/// what its last run printed.
#[derive(Debug)]
pub struct CustomGroup {
    name: GroupName,
    tests: Vec<Test>,
    output: Option<Vec<String>>,
}

/// The mathematical value of a [`CustomGroup`].
pub struct CustomGroupView {
    pub name: Seq<char>,
    pub tests: Seq<TestView>,
    pub output: Option<Seq<Seq<char>>>,
}

impl View for CustomGroup {
    type V = CustomGroupView;

    closed spec fn view(&self) -> CustomGroupView {
        CustomGroupView {
            name: self.name@,
            tests: self.tests.deep_view(),
            output: self.output.deep_view(),
        }
    }
}

impl DeepView for CustomGroup {
    type V = CustomGroupView;

    open spec fn deep_view(&self) -> CustomGroupView {
        self@
    }
}

impl CustomGroupView {
    /// What every group holds: its tests stand in strictly ascending order of their names.
    pub open spec fn well_formed(self) -> bool {
        tests_sorted(self.tests)
    }
}

impl CustomGroup {
    #[verifier::type_invariant]
    spec fn inv(&self) -> bool {
        self@.well_formed()
    }

    /// A group of the given name and tests, the tests sorted, with nothing printed yet.
    pub fn new(name: GroupName, tests: Vec<Test>) -> (r: Self)
        ensures
            r@ == (CustomGroupView {
                name: name@,
                tests: sorted_tests(tests.deep_view()),
                output: None,
            }),
            r@.well_formed(),
    {
        let tests = sort_tests(&tests);
        let output: Option<Vec<String>> = None;
        CustomGroup { name, tests, output }
    }

    /// The group's name.
    pub fn name(&self) -> (r: Cow<'_, GroupName>)
        ensures
            r@ == self@.name,
    {
        Cow::Borrowed(&self.name)
    }

    /// The group's tests, in ascending order of their names.
    pub fn tests(&self) -> (r: &[Test])
        ensures
            r.deep_view() == self@.tests,
            tests_sorted(self@.tests),
    {
        proof {
            use_type_invariant(self);
        }
        self.tests.as_slice()
    }

    /// What the last run has printed so far, none before the first line.
    pub fn output(&self) -> (r: Option<&[String]>)
        ensures
            r.deep_view() == self@.output,
    {
        match &self.output {
            Some(lines) => Some(lines.as_slice()),
            None => None,
        }
    }

    /// Puts `output` in the place of what the last run printed, and hands back what was
    /// there.
    pub fn replace_output(&mut self, output: Option<Vec<String>>) -> (r: Option<Vec<String>>)
        ensures
            final(self)@ == (CustomGroupView { output: output.deep_view(), ..old(self)@ }),
            r.deep_view() == old(self)@.output,
    {
        proof {
            use_type_invariant(&*self);
        }
        let mut output = output;
        core::mem::swap(&mut self.output, &mut output);
        output
    }

    /// Forgets what the last run printed.
    pub fn reset_output(&mut self)
        ensures
            final(self)@ == (CustomGroupView { output: None, ..old(self)@ }),
    {
        proof {
            use_type_invariant(&*self);
        }
        self.output = None;
    }

    /// Adds a line to what the run has printed.
    pub fn push_output(&mut self, line: String)
        ensures
            final(self)@ == (CustomGroupView {
                output: Some(pushed_line(old(self)@.output, line@)),
                ..old(self)@
            }),
    {
        proof {
            use_type_invariant(&*self);
        }
        let mut output: Option<Vec<String>> = None;
        core::mem::swap(&mut self.output, &mut output);
        let mut lines = match output {
            Some(lines) => lines,
            None => Vec::new(),
        };
        let ghost before = lines.deep_view();
        assert(old(self)@.output is None ==> before =~= seq![]);
        lines.push(line);
        assert(lines.deep_view() =~= before.push(line@));
        assert(lines.deep_view() =~= pushed_line(old(self)@.output, line@));
        self.output = Some(lines);
    }

    /// Takes the name and the tests of `group`; what this group has printed stays.
    pub fn update_group(&mut self, group: CustomGroup)
        ensures
            final(self)@ == (CustomGroupView { output: old(self)@.output, ..group@ }),
            final(self)@.well_formed(),
    {
        proof {
            use_type_invariant(&*self);
            use_type_invariant(&group);
        }
        let mut output: Option<Vec<String>> = None;
        core::mem::swap(&mut self.output, &mut output);
        let CustomGroup { name, tests, output: _ } = group;
        *self = CustomGroup { name, tests, output };
    }
}

} // verus!
