use scruters::keys::{KeyCode, KeyEvent, KeyModifiers, MODIFIERS_CONTROL, MODIFIERS_NONE};
use scruters::logs::LogsState;
use scruters::message::{ActiveComponent, Effect, Message, TestingMessage};
use scruters::screen::{default_screen, Screen};
use scruters::state::State;

fn key(code: KeyCode, bits: u8) -> Message {
    Message::KeyEvent(KeyEvent { code, modifiers: KeyModifiers { bits } })
}

#[test]
fn the_application_starts_on_the_testing_screen() {
    assert_eq!(default_screen(), Some(Screen::Testing));
    assert_eq!(Screen::default(), Screen::Testing);
    let state = State::new();
    assert_eq!(state.current_screen, Some(Screen::Testing));
    assert_eq!(state.logs_state.previous_screen, Screen::Testing);
    assert!(state.testing_state.groups().is_empty());
}

#[test]
fn quitting_asks_for_the_state_to_be_saved_first() {
    let mut state = State::new();
    let outcome = state.handle_message(Message::Quit);
    assert!(matches!(outcome.effect, Effect::SaveState));
    assert!(outcome.next.is_none());
    assert_eq!(state.current_screen, Some(Screen::Testing));

    let mut other = State::new();
    other.handle_message(Message::GoToScreen(Screen::Logs));
    let outcome = other.handle_message(key(KeyCode::Char('c'), MODIFIERS_CONTROL));
    assert!(matches!(outcome.effect, Effect::SaveState));
    assert!(outcome.next.is_none());
    assert_eq!(other.current_screen, Some(Screen::Logs));
}

#[test]
fn the_application_ends_once_the_state_is_saved() {
    let mut state = State::new();
    state.handle_message(Message::Testing(TestingMessage::SelectNextGroup));
    state.handle_message(Message::Quit);
    state.finish_quit(true);
    assert_eq!(state.current_screen, None);
    assert_eq!(state.testing_state.selected_group_index(), Some(1));
    assert_eq!(state.logs_state.previous_screen, Screen::Testing);
}

#[test]
fn a_failed_save_leaves_the_state_as_it_was() {
    let mut state = State::new();
    state.handle_message(Message::GoToScreen(Screen::Logs));
    state.handle_message(Message::Testing(TestingMessage::SelectNextGroup));
    state.handle_message(Message::Quit);
    state.finish_quit(false);
    assert_eq!(state.current_screen, Some(Screen::Logs));
    assert_eq!(state.testing_state.selected_group_index(), Some(1));
    assert_eq!(state.logs_state.previous_screen, Screen::Testing);
}

#[test]
fn a_plain_c_does_not_quit() {
    let mut state = State::new();
    let outcome = state.handle_message(key(KeyCode::Char('c'), MODIFIERS_NONE));
    assert!(matches!(outcome.effect, Effect::Nothing));
    assert!(outcome.next.is_none());
    assert_eq!(state.current_screen, Some(Screen::Testing));
    let outcome = state.handle_message(key(KeyCode::Char('c'), MODIFIERS_CONTROL | 1));
    assert!(matches!(outcome.effect, Effect::Nothing));
    assert_eq!(state.current_screen, Some(Screen::Testing));
}

#[test]
fn the_question_mark_opens_the_logs_and_escape_leads_back() {
    let mut state = State::new();
    let outcome = state.handle_message(key(KeyCode::Char('?'), MODIFIERS_NONE));
    assert!(outcome.next.is_none());
    assert_eq!(state.current_screen, Some(Screen::Logs));
    assert_eq!(state.logs_state.previous_screen, Screen::Testing);

    let outcome = state.handle_message(key(KeyCode::Esc, MODIFIERS_NONE));
    let next = outcome.next.expect("escape asks for the previous screen");
    assert!(matches!(next, Message::GoToScreen(Screen::Testing)));
    let outcome = state.handle_message(next);
    assert!(outcome.next.is_none());
    assert_eq!(state.current_screen, Some(Screen::Testing));
}

#[test]
fn escape_with_a_modifier_stays_on_the_logs() {
    let logs = LogsState { previous_screen: Screen::Testing };
    let shifted = KeyEvent { code: KeyCode::Esc, modifiers: KeyModifiers { bits: 1 } };
    assert!(logs.handle_key_event(shifted).is_none());
    let down = KeyEvent { code: KeyCode::Down, modifiers: KeyModifiers { bits: 0 } };
    assert!(logs.handle_key_event(down).is_none());
    let plain = KeyEvent { code: KeyCode::Esc, modifiers: KeyModifiers { bits: 0 } };
    assert!(matches!(logs.handle_key_event(plain), Some(Message::GoToScreen(Screen::Testing))));
    assert_eq!(LogsState::default().previous_screen, Screen::Testing);
}

#[test]
fn other_keys_go_to_the_current_screen() {
    let mut state = State::new();
    let outcome = state.handle_message(key(KeyCode::Enter, MODIFIERS_NONE));
    let next = outcome.next.expect("enter means something in the group list");
    assert!(matches!(
        next,
        Message::Testing(TestingMessage::SetActiveComponent(ActiveComponent::Tests))
    ));
    let outcome = state.handle_message(next);
    assert!(matches!(outcome.effect, Effect::Nothing));
    assert_eq!(state.testing_state.active_component(), ActiveComponent::Tests);

    state.handle_message(Message::Quit);
    state.finish_quit(true);
    let outcome = state.handle_message(key(KeyCode::Enter, MODIFIERS_NONE));
    assert!(outcome.next.is_none());
}

#[test]
fn a_testing_message_reaches_the_testing_screen() {
    let mut state = State::new();
    let outcome = state.handle_message(Message::Testing(TestingMessage::RunSelectedGroup));
    assert!(matches!(outcome.effect, Effect::Run { settle_previous: false, request: None }));
    state.handle_message(Message::Testing(TestingMessage::SelectNextGroup));
    assert_eq!(state.testing_state.selected_group_index(), Some(1));
    state.handle_message(Message::GoToScreen(Screen::Logs));
    assert_eq!(state.current_screen, Some(Screen::Logs));
}

#[test]
fn modifiers_are_told_apart() {
    assert!(KeyModifiers { bits: 0 }.is_empty());
    assert!(!KeyModifiers { bits: 2 }.is_empty());
    assert!(KeyModifiers { bits: 2 }.is_control());
    assert!(!KeyModifiers { bits: 3 }.is_control());
    assert!(!KeyModifiers { bits: 0 }.is_control());
}
