//! The state of the application, and what each message does to it.

use vstd::prelude::*;
use crate::keys::{KeyCode, KeyEvent, MODIFIERS_CONTROL, MODIFIERS_NONE};
use crate::logs::{logs_key_target, LogsState};
use crate::message::{ActiveComponent, Effect, EffectView, Message};
use crate::screen::Screen;
use crate::testing::{effect_after, key_message, state_after, TestingState, TestingStateView};

verus! {

/// The state of the application. With no current screen the application ends.
#[derive(Debug)]
pub struct State {
    pub current_screen: Option<Screen>,
    pub testing_state: TestingState,
    pub logs_state: LogsState,
}

/// The mathematical value of a [`State`].
pub struct StateView {
    pub current_screen: Option<Screen>,
    pub testing_state: TestingStateView,
    pub logs_state: LogsState,
}

impl View for State {
    type V = StateView;

    open spec fn view(&self) -> StateView {
        StateView {
            current_screen: self.current_screen,
            testing_state: self.testing_state@,
            logs_state: self.logs_state,
        }
    }
}

/// What handling a message gives: a message to handle next, if any, and what is to be done
/// outside.
#[derive(Debug)]
pub struct Outcome {
    pub next: Option<Message>,
    pub effect: Effect,
}

/// The key press asks to quit: `c` with the control key.
pub open spec fn is_quit_key(key_event: KeyEvent) -> bool {
    key_event.code == KeyCode::Char('c') && key_event.modifiers.bits == MODIFIERS_CONTROL
}

/// The key press asks for the log screen: `?` with no modifier key.
pub open spec fn is_logs_key(key_event: KeyEvent) -> bool {
    key_event.code == KeyCode::Char('?') && key_event.modifiers.bits == MODIFIERS_NONE
}

/// The state after a message has been handled. A request to quit changes nothing yet: the
/// state is written down first, and [`State::finish_quit`] takes the outcome.
pub open spec fn app_state_after(pre: StateView, message: Message) -> StateView {
    match message {
        Message::GoToScreen(screen) => StateView { current_screen: Some(screen), ..pre },
        Message::Quit => pre,
        Message::KeyEvent(key_event) => if is_quit_key(key_event) {
            pre
        } else if is_logs_key(key_event) {
            StateView {
                current_screen: Some(Screen::Logs),
                logs_state: LogsState {
                    previous_screen: match pre.current_screen {
                        Some(screen) => screen,
                        None => Screen::Testing,
                    },
                },
                ..pre
            }
        } else {
            pre
        },
        Message::Testing(message) => StateView {
            testing_state: state_after(pre.testing_state, message),
            ..pre
        },
    }
}

/// What is to be done outside after a message has been handled: a request to quit asks
/// for the state to be saved, and the testing screen's messages ask for what they ask.
pub open spec fn app_effect_after(pre: StateView, message: Message) -> EffectView {
    match message {
        Message::Quit => EffectView::SaveState,
        Message::KeyEvent(key_event) => if is_quit_key(key_event) {
            EffectView::SaveState
        } else {
            EffectView::Nothing
        },
        Message::Testing(message) => effect_after(pre.testing_state, message),
        _ => EffectView::Nothing,
    }
}

/// The message to handle next: what the current screen makes of a key press that is
/// neither the key to quit nor the key for the log screen.
pub open spec fn app_next_message(pre: StateView, message: Message) -> Option<Message> {
    match message {
        Message::KeyEvent(key_event) => if is_quit_key(key_event) || is_logs_key(key_event) {
            None
        } else {
            match pre.current_screen {
                Some(Screen::Testing) => match key_message(
                    pre.testing_state.active_component,
                    key_event.code,
                ) {
                    Some(message) => Some(Message::Testing(message)),
                    None => None,
                },
                Some(Screen::Logs) => match logs_key_target(
                    pre.logs_state.previous_screen,
                    key_event,
                ) {
                    Some(screen) => Some(Message::GoToScreen(screen)),
                    None => None,
                },
                None => None,
            }
        },
        _ => None,
    }
}

/// The testing screen at start-up: the groups have the focus, the first group and the
/// first test are selected, and there are no groups, no results and no job.
pub open spec fn initial_testing_state() -> TestingStateView {
    TestingStateView {
        active_component: ActiveComponent::Groups,
        groups_selected: Some(0usize),
        tests_selected: Some(0usize),
        groups: seq![],
        test_results: seq![],
        job: None,
    }
}

impl State {
    /// The state at start-up: the testing screen, no groups, nothing running.
    pub fn new() -> (r: Self)
        ensures
            r.current_screen == Some(Screen::Testing),
            r.logs_state.previous_screen == Screen::Testing,
            r.testing_state@ == initial_testing_state(),
    {
        let testing_state = TestingState::default();
        State {
            current_screen: Some(Screen::default()),
            testing_state,
            logs_state: LogsState::default(),
        }
    }

    /// Ends what a request to quit began, once the state has been written down: where the
    /// write went well there is no current screen any more, and the application ends;
    /// where it failed the state stays as it is.
    pub fn finish_quit(&mut self, saved: bool)
        ensures
            saved ==> final(self)@ == (StateView { current_screen: None, ..old(self)@ }),
            !saved ==> final(self)@ == old(self)@,
    {
        if saved {
            self.current_screen = None;
        }
    }

    /// Handles a message: changes the state as the message asks, and says which message
    /// is to be handled next and what is to be done outside.
    pub fn handle_message(&mut self, message: Message) -> (r: Outcome)
        ensures
            final(self)@ == app_state_after(old(self)@, message),
            r.effect@ == app_effect_after(old(self)@, message),
            r.next == app_next_message(old(self)@, message),
    {
        match message {
            Message::GoToScreen(screen) => {
                self.current_screen = Some(screen);
                Outcome { next: None, effect: Effect::Nothing }
            },
            Message::Quit => Outcome { next: None, effect: Effect::SaveState },
            Message::KeyEvent(key_event) => {
                let is_quit = match key_event.code {
                    KeyCode::Char(c) => c == 'c' && key_event.modifiers.is_control(),
                    _ => false,
                };
                let is_logs = match key_event.code {
                    KeyCode::Char(c) => c == '?' && key_event.modifiers.is_empty(),
                    _ => false,
                };
                if is_quit {
                    Outcome { next: None, effect: Effect::SaveState }
                } else if is_logs {
                    let previous_screen = match self.current_screen {
                        Some(screen) => screen,
                        None => Screen::default(),
                    };
                    self.current_screen = Some(Screen::Logs);
                    self.logs_state.previous_screen = previous_screen;
                    Outcome { next: None, effect: Effect::Nothing }
                } else {
                    let next = match self.current_screen {
                        Some(Screen::Testing) => self.testing_state.handle_key_event(key_event),
                        Some(Screen::Logs) => self.logs_state.handle_key_event(key_event),
                        None => None,
                    };
                    Outcome { next, effect: Effect::Nothing }
                }
            },
            Message::Testing(message) => {
                let effect = self.testing_state.handle_message(message);
                Outcome { next: None, effect }
            },
        }
    }
}

} // verus!
