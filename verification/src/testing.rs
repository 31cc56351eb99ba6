//! The state of the testing screen, and what each message does to it.

use vstd::prelude::*;
use crate::group::{Group, GroupView};
use crate::groups::{retained, upserted, with_line, Groups};
use crate::job::{group_job, group_job_of, test_job, test_job_of};
use crate::job::{JobOwner, JobOwnerView, JobRequestView};
use crate::keys::{KeyCode, KeyEvent};
use crate::message::{ActiveComponent, Effect, EffectView, Message, OutputSource, TestingMessage};
use crate::selection::{default_list_state, next_selection, previous_selection, ListSelection};
use crate::test_item::{Test, TestView};
use crate::test_results::{with_started, with_test_line, TestResultView, TestResults};
use crate::watch::{add_auto_generated_groups, with_empty_groups};
use crate::workspace::{all_entries, WorkspaceMetadata};

verus! {

/// The state of the testing screen.
#[derive(Debug)]
pub struct TestingState {
    /// The part of the screen that has the focus.
    pub active_component: ActiveComponent,
    /// The selection in the list of groups.
    pub groups_component_state: ListSelection,
    /// The selection in the list of the selected group's tests.
    pub tests_component_state: ListSelection,
    /// The groups.
    pub groups: Groups,
    /// What the runs of single tests have given.
    pub test_results: TestResults,
    /// The owner of the job that was started last, if any: at most one job is alive.
    job: Option<JobOwner>,
}

/// The mathematical value of a [`TestingState`].
pub struct TestingStateView {
    pub active_component: ActiveComponent,
    pub groups_selected: Option<usize>,
    pub tests_selected: Option<usize>,
    pub groups: Seq<GroupView>,
    pub test_results: Seq<(TestView, TestResultView)>,
    pub job: Option<JobOwnerView>,
}

impl View for TestingState {
    type V = TestingStateView;

    closed spec fn view(&self) -> TestingStateView {
        TestingStateView {
            active_component: self.active_component,
            groups_selected: self.groups_component_state.selected,
            tests_selected: self.tests_component_state.selected,
            groups: self.groups@,
            test_results: self.test_results@,
            job: self.job.deep_view(),
        }
    }
}

impl TestingStateView {
    /// The group that is selected: the one at the selected index, none where nothing is
    /// selected or the index lies past the end.
    pub open spec fn selected_group(self) -> Option<GroupView> {
        match self.groups_selected {
            Some(index) => if index < self.groups.len() {
                Some(self.groups[index as int])
            } else {
                None
            },
            None => None,
        }
    }

    /// The test that is selected: the one at the selected index among the tests of the
    /// selected group.
    pub open spec fn selected_test(self) -> Option<TestView> {
        match (self.selected_group(), self.tests_selected) {
            (Some(group), Some(index)) => if index < group.tests().len() {
                Some(group.tests()[index as int])
            } else {
                None
            },
            _ => None,
        }
    }

    /// The job that a request to run the selected group starts, if any.
    pub open spec fn group_job(self) -> Option<JobRequestView> {
        match self.selected_group() {
            Some(group) => group_job_of(group),
            None => None,
        }
    }

    /// The job that a request to run the selected test starts, if any.
    pub open spec fn test_job(self) -> Option<JobRequestView> {
        match self.selected_test() {
            Some(test) => Some(test_job_of(test)),
            None => None,
        }
    }
}

/// The owner of the requested job, if one is requested.
pub open spec fn owner_of(request: Option<JobRequestView>) -> Option<JobOwnerView> {
    match request {
        Some(job) => Some(job.owner),
        None => None,
    }
}

/// The message that a key gives while `active` has the focus, if it gives one.
pub open spec fn key_message(active: ActiveComponent, code: KeyCode) -> Option<TestingMessage> {
    match (active, code) {
        (ActiveComponent::Groups, KeyCode::Char('r')) => Some(TestingMessage::RunSelectedGroup),
        (ActiveComponent::Groups, KeyCode::Down) => Some(TestingMessage::SelectNextGroup),
        (ActiveComponent::Groups, KeyCode::Up) => Some(TestingMessage::SelectPreviousGroup),
        (ActiveComponent::Groups, KeyCode::Home) => Some(TestingMessage::SelectFirstGroup),
        (ActiveComponent::Groups, KeyCode::End) => Some(TestingMessage::SelectLastGroup),
        (ActiveComponent::Groups, KeyCode::Enter) => Some(
            TestingMessage::SetActiveComponent(ActiveComponent::Tests),
        ),
        (ActiveComponent::Tests, KeyCode::Char('r')) => Some(TestingMessage::RunSelectedTest),
        (ActiveComponent::Tests, KeyCode::Down) => Some(TestingMessage::SelectNextTest),
        (ActiveComponent::Tests, KeyCode::Up) => Some(TestingMessage::SelectPreviousTest),
        (ActiveComponent::Tests, KeyCode::Home) => Some(TestingMessage::SelectFirstTest),
        (ActiveComponent::Tests, KeyCode::End) => Some(TestingMessage::SelectLastTest),
        (ActiveComponent::Tests, KeyCode::Esc) => Some(
            TestingMessage::SetActiveComponent(ActiveComponent::Groups),
        ),
        (ActiveComponent::Output(OutputSource::Groups), KeyCode::Char('r')) => Some(
            TestingMessage::RunSelectedGroup,
        ),
        (ActiveComponent::Output(OutputSource::Groups), KeyCode::Esc) => Some(
            TestingMessage::SetActiveComponent(ActiveComponent::Groups),
        ),
        (ActiveComponent::Output(OutputSource::Tests), KeyCode::Char('r')) => Some(
            TestingMessage::RunSelectedTest,
        ),
        (ActiveComponent::Output(OutputSource::Tests), KeyCode::Esc) => Some(
            TestingMessage::SetActiveComponent(ActiveComponent::Tests),
        ),
        _ => None,
    }
}

impl Default for TestingState {
    fn default() -> (r: Self)
        ensures
            r@ == (TestingStateView {
                active_component: ActiveComponent::Groups,
                groups_selected: Some(0usize),
                tests_selected: Some(0usize),
                groups: seq![],
                test_results: seq![],
                job: None,
            }),
    {
        TestingState {
            active_component: ActiveComponent::Groups,
            groups_component_state: default_list_state(),
            tests_component_state: default_list_state(),
            groups: Groups::new(),
            test_results: TestResults::default(),
            job: None,
        }
    }
}

impl TestingState {
    /// Puts the groups of the workspace in place, each empty until its tests are known.
    /// Groups that are there stay as they are.
    pub fn init(&mut self, metadata: &WorkspaceMetadata)
        ensures
            final(self)@ == (TestingStateView {
                groups: with_empty_groups(old(self)@.groups, all_entries(metadata@.packages)),
                ..old(self)@
            }),
    {
        add_auto_generated_groups(&mut self.groups, metadata);
    }

    /// The part of the screen that has the focus.
    pub fn active_component(&self) -> (r: ActiveComponent)
        ensures
            r == self@.active_component,
    {
        self.active_component
    }

    /// The groups.
    pub fn groups(&self) -> (r: &Groups)
        ensures
            r@ == self@.groups,
    {
        &self.groups
    }

    /// What the runs of single tests have given.
    pub fn test_results(&self) -> (r: &TestResults)
        ensures
            r@ == self@.test_results,
    {
        &self.test_results
    }

    /// The selected index in the list of groups.
    pub fn selected_group_index(&self) -> (r: Option<usize>)
        ensures
            r == self@.groups_selected,
    {
        self.groups_component_state.selected()
    }

    /// The selected index in the list of tests.
    pub fn selected_test_index(&self) -> (r: Option<usize>)
        ensures
            r == self@.tests_selected,
    {
        self.tests_component_state.selected()
    }

    /// The owner of the job that was started last, if any.
    pub fn job(&self) -> (r: Option<&JobOwner>)
        ensures
            r.deep_view() == self@.job,
    {
        match &self.job {
            Some(owner) => Some(owner),
            None => None,
        }
    }

    /// Notes that there is no job: it could not be started, or it is known to be gone.
    pub fn clear_job(&mut self)
        ensures
            final(self)@ == (TestingStateView { job: None, ..old(self)@ }),
    {
        self.job = None;
    }

    /// The group that is selected.
    pub fn selected_group(&self) -> (r: Option<&Group>)
        ensures
            r.deep_view() == self@.selected_group(),
    {
        match self.groups_component_state.selected() {
            Some(index) => self.groups.get(index),
            None => None,
        }
    }

    /// The test that is selected, among the tests of the selected group.
    pub fn selected_test(&self) -> (r: Option<&Test>)
        ensures
            r.deep_view() == self@.selected_test(),
    {
        match (self.selected_group(), self.tests_component_state.selected()) {
            (Some(group), Some(index)) => {
                let tests = group.tests();
                if index < tests.len() {
                    assert(tests.deep_view()[index as int] == tests[index as int]@);
                    Some(&tests[index])
                } else {
                    None
                }
            },
            _ => None,
        }
    }

    /// The message that a key press gives, if it gives one.
    pub fn handle_key_event(&self, key_event: KeyEvent) -> (r: Option<Message>)
        ensures
            match key_message(self@.active_component, key_event.code) {
                Some(message) => r == Some(Message::Testing(message)),
                None => r is None,
            },
    {
        let message = match (self.active_component, key_event.code) {
            (ActiveComponent::Groups, KeyCode::Char('r')) => TestingMessage::RunSelectedGroup,
            (ActiveComponent::Groups, KeyCode::Down) => TestingMessage::SelectNextGroup,
            (ActiveComponent::Groups, KeyCode::Up) => TestingMessage::SelectPreviousGroup,
            (ActiveComponent::Groups, KeyCode::Home) => TestingMessage::SelectFirstGroup,
            (ActiveComponent::Groups, KeyCode::End) => TestingMessage::SelectLastGroup,
            (ActiveComponent::Groups, KeyCode::Enter) => TestingMessage::SetActiveComponent(
                ActiveComponent::Tests,
            ),
            (ActiveComponent::Tests, KeyCode::Char('r')) => TestingMessage::RunSelectedTest,
            (ActiveComponent::Tests, KeyCode::Down) => TestingMessage::SelectNextTest,
            (ActiveComponent::Tests, KeyCode::Up) => TestingMessage::SelectPreviousTest,
            (ActiveComponent::Tests, KeyCode::Home) => TestingMessage::SelectFirstTest,
            (ActiveComponent::Tests, KeyCode::End) => TestingMessage::SelectLastTest,
            (ActiveComponent::Tests, KeyCode::Esc) => TestingMessage::SetActiveComponent(
                ActiveComponent::Groups,
            ),
            (
                ActiveComponent::Output(OutputSource::Groups),
                KeyCode::Char('r'),
            ) => TestingMessage::RunSelectedGroup,
            (
                ActiveComponent::Output(OutputSource::Groups),
                KeyCode::Esc,
            ) => TestingMessage::SetActiveComponent(ActiveComponent::Groups),
            (
                ActiveComponent::Output(OutputSource::Tests),
                KeyCode::Char('r'),
            ) => TestingMessage::RunSelectedTest,
            (
                ActiveComponent::Output(OutputSource::Tests),
                KeyCode::Esc,
            ) => TestingMessage::SetActiveComponent(ActiveComponent::Tests),
            _ => {
                return None;
            },
        };
        Some(Message::Testing(message))
    }
}

/// The state after a message has been handled.
pub open spec fn state_after(pre: TestingStateView, message: TestingMessage) -> TestingStateView {
    match message {
        TestingMessage::OutputFromGroupRun(key, line) => TestingStateView {
            groups: with_line(pre.groups, key@, line@),
            ..pre
        },
        TestingMessage::OutputFromTestRun(test, line) => TestingStateView {
            test_results: with_test_line(pre.test_results, test@, line@),
            ..pre
        },
        TestingMessage::RetainAutoGeneratedGroups(names) => TestingStateView {
            groups: retained(pre.groups, names.deep_view()),
            ..pre
        },
        TestingMessage::RunSelectedGroup => TestingStateView {
            job: owner_of(pre.group_job()),
            ..pre
        },
        TestingMessage::RunSelectedTest => TestingStateView {
            job: owner_of(pre.test_job()),
            test_results: match pre.selected_test() {
                Some(test) => with_started(pre.test_results, test),
                None => pre.test_results,
            },
            ..pre
        },
        TestingMessage::SetActiveComponent(component) => TestingStateView {
            active_component: component,
            ..pre
        },
        TestingMessage::SelectFirstGroup => TestingStateView {
            groups_selected: Some(0usize),
            ..pre
        },
        TestingMessage::SelectFirstTest => TestingStateView {
            tests_selected: Some(0usize),
            ..pre
        },
        TestingMessage::SelectLastGroup => TestingStateView {
            groups_selected: Some(usize::MAX),
            ..pre
        },
        TestingMessage::SelectLastTest => TestingStateView {
            tests_selected: Some(usize::MAX),
            ..pre
        },
        TestingMessage::SelectNextGroup => TestingStateView {
            groups_selected: next_selection(pre.groups_selected),
            ..pre
        },
        TestingMessage::SelectNextTest => TestingStateView {
            tests_selected: next_selection(pre.tests_selected),
            ..pre
        },
        TestingMessage::SelectPreviousGroup => TestingStateView {
            groups_selected: previous_selection(pre.groups_selected),
            ..pre
        },
        TestingMessage::SelectPreviousTest => TestingStateView {
            tests_selected: previous_selection(pre.tests_selected),
            ..pre
        },
        TestingMessage::UpsertGroup(group) => TestingStateView {
            groups: upserted(pre.groups, group@),
            tests_selected: match pre.tests_selected {
                Some(index) => Some(index),
                None => Some(0usize),
            },
            ..pre
        },
    }
}

/// What is to be done after a message has been handled: a request to run stops the job
/// that was started before, if there is one, and starts the job of the selected group or
/// test, if there is one; no other message asks for anything.
pub open spec fn effect_after(pre: TestingStateView, message: TestingMessage) -> EffectView {
    match message {
        TestingMessage::RunSelectedGroup => EffectView::Run {
            settle_previous: pre.job is Some,
            request: pre.group_job(),
        },
        TestingMessage::RunSelectedTest => EffectView::Run {
            settle_previous: pre.job is Some,
            request: pre.test_job(),
        },
        _ => EffectView::Nothing,
    }
}

impl TestingState {
    /// Handles a message: changes the state as the message asks, and says what is to be
    /// done outside.
    pub fn handle_message(&mut self, message: TestingMessage) -> (r: Effect)
        ensures
            final(self)@ == state_after(old(self)@, message),
            r@ == effect_after(old(self)@, message),
    {
        match message {
            TestingMessage::OutputFromGroupRun(key, line) => {
                let _ = self.groups.push_output(&key, line);
                Effect::Nothing
            },
            TestingMessage::OutputFromTestRun(test, line) => {
                let _ = self.test_results.push_output(&test, line);
                Effect::Nothing
            },
            TestingMessage::RetainAutoGeneratedGroups(names) => {
                self.groups.retain_auto_generated(&names);
                Effect::Nothing
            },
            TestingMessage::RunSelectedGroup => {
                let settle_previous = self.job.is_some();
                let request = match self.selected_group() {
                    Some(group) => group_job(group),
                    None => None,
                };
                self.job = match &request {
                    Some(job) => Some(job.owner.clone()),
                    None => None,
                };
                Effect::Run { settle_previous, request }
            },
            TestingMessage::RunSelectedTest => {
                let settle_previous = self.job.is_some();
                let request = match self.selected_test() {
                    Some(test) => Some(test_job(test)),
                    None => None,
                };
                match &request {
                    Some(job) => {
                        self.job = Some(job.owner.clone());
                        match &job.owner {
                            JobOwner::Test(test) => {
                                self.test_results.start(test.clone());
                            },
                            JobOwner::Group(_) => {},
                        }
                    },
                    None => {
                        self.job = None;
                    },
                }
                Effect::Run { settle_previous, request }
            },
            TestingMessage::SetActiveComponent(component) => {
                self.active_component = component;
                Effect::Nothing
            },
            TestingMessage::SelectFirstGroup => {
                self.groups_component_state.select_first();
                Effect::Nothing
            },
            TestingMessage::SelectFirstTest => {
                self.tests_component_state.select_first();
                Effect::Nothing
            },
            TestingMessage::SelectLastGroup => {
                self.groups_component_state.select_last();
                Effect::Nothing
            },
            TestingMessage::SelectLastTest => {
                self.tests_component_state.select_last();
                Effect::Nothing
            },
            TestingMessage::SelectNextGroup => {
                self.groups_component_state.select_next();
                Effect::Nothing
            },
            TestingMessage::SelectNextTest => {
                self.tests_component_state.select_next();
                Effect::Nothing
            },
            TestingMessage::SelectPreviousGroup => {
                self.groups_component_state.select_previous();
                Effect::Nothing
            },
            TestingMessage::SelectPreviousTest => {
                self.tests_component_state.select_previous();
                Effect::Nothing
            },
            TestingMessage::UpsertGroup(group) => {
                self.groups.upsert(group);
                if self.tests_component_state.selected().is_none() {
                    self.tests_component_state.select_first();
                }
                Effect::Nothing
            },
        }
    }
}

} // verus!
