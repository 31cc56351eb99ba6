//! The state of the log screen.

use vstd::prelude::*;
use crate::keys::{KeyCode, KeyEvent, MODIFIERS_NONE};
use crate::message::Message;
use crate::screen::Screen;

verus! {

/// The state of the log screen: the screen to go back to.
#[derive(Debug, Clone, Copy, PartialEq, Eq, Structural)]
pub struct LogsState {
    pub previous_screen: Screen,
}

impl Default for LogsState {
    fn default() -> (r: Self)
        ensures
            r.previous_screen == Screen::Testing,
    {
        LogsState { previous_screen: Screen::default() }
    }
}

/// The screen that a key press on the log screen leads to: escape, with no modifier key,
/// leads back to the previous screen.
pub open spec fn logs_key_target(previous: Screen, key_event: KeyEvent) -> Option<Screen> {
    if key_event.code == KeyCode::Esc && key_event.modifiers.bits == MODIFIERS_NONE {
        Some(previous)
    } else {
        None
    }
}

impl LogsState {
    /// The message that a key press gives, if it gives one.
    pub fn handle_key_event(&self, key_event: KeyEvent) -> (r: Option<Message>)
        ensures
            match logs_key_target(self.previous_screen, key_event) {
                Some(screen) => r == Some(Message::GoToScreen(screen)),
                None => r is None,
            },
    {
        match key_event.code {
            KeyCode::Esc => {
                if key_event.modifiers.is_empty() {
                    Some(Message::GoToScreen(self.previous_screen))
                } else {
                    None
                }
            },
            _ => None,
        }
    }
}

} // verus!
