//! What the state machine is told, and what it asks to be done.

use vstd::prelude::*;
use crate::group::Group;
use crate::group_key::GroupKey;
use crate::group_name::GroupName;
use crate::job::{JobRequest, JobRequestView};
use crate::keys::KeyEvent;
use crate::screen::Screen;
use crate::test_item::Test;

verus! {

/// Where the output that is shown comes from.
#[derive(Debug, Clone, Copy, PartialEq, Eq, Structural)]
pub enum OutputSource {
    Groups,
    Tests,
}

/// The part of the testing screen that has the focus.
#[derive(Debug, Clone, Copy, PartialEq, Eq, Structural)]
pub enum ActiveComponent {
    Groups,
    Tests,
    Output(OutputSource),
}

impl Default for ActiveComponent {
    fn default() -> (r: Self)
        ensures
            r == ActiveComponent::Groups,
    {
        ActiveComponent::Groups
    }
}

/// What the testing screen is told.
#[derive(Debug)]
pub enum TestingMessage {
    /// The run of a group has printed a line.
    OutputFromGroupRun(GroupKey, String),
    /// The run of a test has printed a line.
    OutputFromTestRun(Test, String),
    /// Only the auto-generated groups of these names are still in the workspace.
    RetainAutoGeneratedGroups(Vec<GroupName>),
    RunSelectedGroup,
    RunSelectedTest,
    SetActiveComponent(ActiveComponent),
    SelectFirstGroup,
    SelectFirstTest,
    SelectLastGroup,
    SelectLastTest,
    SelectNextGroup,
    SelectNextTest,
    SelectPreviousGroup,
    SelectPreviousTest,
    /// A discovery has found the tests of a group.
    UpsertGroup(Group),
}

/// What the application is told.
#[derive(Debug)]
pub enum Message {
    KeyEvent(KeyEvent),
    GoToScreen(Screen),
    Quit,
    Testing(TestingMessage),
}

/// What is to be done outside the state machine after a message has been handled.
#[derive(Debug)]
pub enum Effect {
    /// Nothing.
    Nothing,
    /// Stop the job that is running, if `settle_previous`, then start the requested one,
    /// if any.
    Run { settle_previous: bool, request: Option<JobRequest> },
    /// Write the state to its file, and tell the state how that went: the application
    /// ends only where the state has been written.
    SaveState,
}

/// The mathematical value of an [`Effect`].
pub enum EffectView {
    Nothing,
    Run { settle_previous: bool, request: Option<JobRequestView> },
    SaveState,
}

impl View for Effect {
    type V = EffectView;

    open spec fn view(&self) -> EffectView {
        match self {
            Effect::Nothing => EffectView::Nothing,
            Effect::Run { settle_previous, request } => EffectView::Run {
                settle_previous: *settle_previous,
                request: request.deep_view(),
            },
            Effect::SaveState => EffectView::SaveState,
        }
    }
}

} // verus!
