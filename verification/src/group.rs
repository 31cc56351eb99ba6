//! A group of tests: made from the workspace, or put together by the user.

use std::borrow::Cow;
use vstd::prelude::*;
use crate::auto_group::{pushed_line, AutoGeneratedGroup, AutoGroupView};
use crate::cargo::{scope_arguments, CargoTestArgs};
use crate::custom_group::{CustomGroup, CustomGroupView};
use crate::group_key::{group_order, GroupKey, GroupKeyView};
use crate::group_name::GroupName;
use crate::test_item::{Test, TestView};
use crate::test_list::tests_sorted;
use crate::text::Order;

verus! {

/// A group of tests.
#[derive(Debug)]
pub enum Group {
    AutoGenerated(AutoGeneratedGroup),
    Custom(CustomGroup),
}

/// The mathematical value of a [`Group`].
pub enum GroupView {
    AutoGenerated(AutoGroupView),
    Custom(CustomGroupView),
}

impl View for Group {
    type V = GroupView;

    open spec fn view(&self) -> GroupView {
        match self {
            Group::AutoGenerated(group) => GroupView::AutoGenerated(group@),
            Group::Custom(group) => GroupView::Custom(group@),
        }
    }
}

impl DeepView for Group {
    type V = GroupView;

    open spec fn deep_view(&self) -> GroupView {
        self@
    }
}

impl GroupView {
    /// The group's identity.
    pub open spec fn key(self) -> GroupKeyView {
        match self {
            GroupView::AutoGenerated(group) => GroupKeyView::AutoGenerated(group.metadata),
            GroupView::Custom(group) => GroupKeyView::Custom(group.name),
        }
    }

    /// The group's name.
    pub open spec fn name(self) -> Seq<char> {
        match self {
            GroupView::AutoGenerated(group) => group.name,
            GroupView::Custom(group) => group.name,
        }
    }

    /// The group's tests.
    pub open spec fn tests(self) -> Seq<TestView> {
        match self {
            GroupView::AutoGenerated(group) => group.tests,
            GroupView::Custom(group) => group.tests,
        }
    }

    /// What the group's last run has printed.
    pub open spec fn output(self) -> Option<Seq<Seq<char>>> {
        match self {
            GroupView::AutoGenerated(group) => group.output,
            GroupView::Custom(group) => group.output,
        }
    }

    /// The group with `output` for what it has printed.
    pub open spec fn with_output(self, output: Option<Seq<Seq<char>>>) -> GroupView {
        match self {
            GroupView::AutoGenerated(group) => GroupView::AutoGenerated(
                AutoGroupView { output, ..group },
            ),
            GroupView::Custom(group) => GroupView::Custom(CustomGroupView { output, ..group }),
        }
    }

    /// What every group holds.
    pub open spec fn well_formed(self) -> bool {
        match self {
            GroupView::AutoGenerated(group) => group.well_formed(),
            GroupView::Custom(group) => group.well_formed(),
        }
    }
}

impl Group {
    /// The group's name.
    pub fn name(&self) -> (r: Cow<'_, GroupName>)
        ensures
            r@ == self@.name(),
    {
        match self {
            Group::AutoGenerated(group) => group.name(),
            Group::Custom(group) => group.name(),
        }
    }

    /// The group's tests, in ascending order of their names.
    pub fn tests(&self) -> (r: &[Test])
        ensures
            r.deep_view() == self@.tests(),
            tests_sorted(self@.tests()),
    {
        match self {
            Group::AutoGenerated(group) => group.tests(),
            Group::Custom(group) => group.tests(),
        }
    }

    /// What the last run has printed so far, none before the first line.
    pub fn output(&self) -> (r: Option<&[String]>)
        ensures
            r.deep_view() == self@.output(),
    {
        match self {
            Group::AutoGenerated(group) => group.output(),
            Group::Custom(group) => group.output(),
        }
    }

    /// The group's identity.
    pub fn as_group_key(&self) -> (r: GroupKey)
        ensures
            r@ == self@.key(),
    {
        match self {
            Group::AutoGenerated(group) => GroupKey::AutoGenerated(group.metadata().clone()),
            Group::Custom(group) => {
                let name = group.name();
                GroupKey::Custom(group_name(&name).clone())
            },
        }
    }

    /// Compares the group's identity with `key` in the order on groups.
    pub fn compare_key(&self, key: &GroupKey) -> (r: Order)
        ensures
            r == group_order(self@.key(), key@),
    {
        match (self, key) {
            (Group::AutoGenerated(group), GroupKey::AutoGenerated(metadata)) => {
                group.metadata().compare(metadata)
            },
            (Group::AutoGenerated(_), GroupKey::Custom(_)) => Order::Less,
            (Group::Custom(_), GroupKey::AutoGenerated(_)) => Order::Greater,
            (Group::Custom(group), GroupKey::Custom(other)) => {
                let name = group.name();
                group_name(&name).compare(other)
            },
        }
    }

    /// Compares two groups in the order on groups.
    pub fn compare(&self, other: &Group) -> (r: Order)
        ensures
            r == group_order(self@.key(), other@.key()),
    {
        let key = other.as_group_key();
        self.compare_key(&key)
    }

    /// Forgets what the last run printed.
    pub fn reset_output(&mut self)
        ensures
            final(self)@ == old(self)@.with_output(None),
    {
        match self {
            Group::AutoGenerated(group) => group.reset_output(),
            Group::Custom(group) => group.reset_output(),
        }
    }

    /// Adds a line to what the run has printed.
    pub fn push_output(&mut self, line: String)
        ensures
            final(self)@ == old(self)@.with_output(Some(pushed_line(old(self)@.output(), line@))),
    {
        match self {
            Group::AutoGenerated(group) => group.push_output(line),
            Group::Custom(group) => group.push_output(line),
        }
    }

    /// Puts `output` in the place of what the last run printed, and hands back what was
    /// there.
    pub fn replace_output(&mut self, output: Option<Vec<String>>) -> (r: Option<Vec<String>>)
        ensures
            final(self)@ == old(self)@.with_output(output.deep_view()),
            r.deep_view() == old(self)@.output(),
    {
        match self {
            Group::AutoGenerated(group) => group.replace_output(output),
            Group::Custom(group) => group.replace_output(output),
        }
    }

    /// Takes the identity and the tests of `group`; what this group has printed stays.
    pub fn update_group(&mut self, group: Group)
        ensures
            final(self)@ == group@.with_output(old(self)@.output()),
    {
        let mut incoming = group;
        let output = self.replace_output(None);
        let _ = incoming.replace_output(output);
        *self = incoming;
    }

    /// What decides the arguments of a run of the whole group; none for a custom group,
    /// which stands for no package or target.
    pub fn to_cargo_test_args(&self) -> (r: Option<CargoTestArgs<'_>>)
        ensures
            self@ is Custom ==> r is None,
            self@ matches GroupView::AutoGenerated(group) ==> {
                &&& r matches Some(args)
                &&& args.cargo_program@ == "cargo"@
                &&& args.color
                &&& !args.list
                &&& !args.fail_fast
                &&& args.args is Some
                &&& scope_arguments(args.args) == group.metadata.scope()
                &&& args.test_args is None
            },
    {
        match self {
            Group::AutoGenerated(group) => Some(group.to_cargo_test_args()),
            Group::Custom(_) => None,
        }
    }
}

/// The name that a borrowed-or-owned name holds.
pub fn group_name<'b>(name: &'b Cow<'_, GroupName>) -> (r: &'b GroupName)
    ensures
        r@ == name@,
{
    match name {
        Cow::Borrowed(b) => b,
        Cow::Owned(o) => o,
    }
}

} // verus!
