use scruters::auto_group::AutoGeneratedGroup;
use scruters::custom_group::CustomGroup;
use scruters::group::Group;
use scruters::group_key::GroupKey;
use scruters::group_name::GroupName;
use scruters::job::JobOwner;
use scruters::keys::{KeyCode, KeyEvent, KeyModifiers};
use scruters::message::{ActiveComponent, Effect, Message, OutputSource, TestingMessage};
use scruters::metadata::AutoGeneratedGroupMetadata;
use scruters::target_kind::TargetKind;
use scruters::test_item::Test;
use scruters::test_name::TestName;
use scruters::testing::TestingState;
use scruters::workspace::{Package, Target, WorkspaceMetadata};

fn metadata(package: &str, target_kind: TargetKind) -> AutoGeneratedGroupMetadata {
    AutoGeneratedGroupMetadata { package_name: package.to_string(), target_kind }
}

fn named(name: &str) -> Test {
    Test::Named(TestName::new(name))
}

fn lib_group(package: &str, tests: &[&str]) -> Group {
    Group::AutoGenerated(AutoGeneratedGroup::new(
        metadata(package, TargetKind::Lib(package.to_string())),
        tests.iter().map(|t| named(t)).collect(),
    ))
}

fn lib_key(package: &str) -> GroupKey {
    GroupKey::AutoGenerated(metadata(package, TargetKind::Lib(package.to_string())))
}

fn key(code: KeyCode) -> KeyEvent {
    KeyEvent { code, modifiers: KeyModifiers { bits: 0 } }
}

fn state_with_two_groups() -> TestingState {
    let mut state = TestingState::default();
    state.handle_message(TestingMessage::UpsertGroup(lib_group("b", &["t2", "t1"])));
    state.handle_message(TestingMessage::UpsertGroup(lib_group("a", &["t0"])));
    state
}

fn output_of(state: &TestingState, key: &GroupKey) -> Vec<String> {
    let place = state.groups.binary_search(key).expect("the group is there");
    state.groups.get(place).expect("in range").output().map(|l| l.to_vec()).unwrap_or_default()
}

#[test]
fn the_state_starts_with_the_groups_in_focus() {
    let state = TestingState::default();
    assert_eq!(state.active_component(), ActiveComponent::Groups);
    assert_eq!(state.selected_group_index(), Some(0));
    assert_eq!(state.selected_test_index(), Some(0));
    assert!(state.groups().is_empty());
    assert!(state.test_results().as_inner().is_empty());
    assert!(state.job().is_none());
    assert!(state.selected_group().is_none());
    assert!(state.selected_test().is_none());
}

#[test]
fn keys_in_the_group_list_give_group_messages() {
    let state = TestingState::default();
    let message = |code| state.handle_key_event(key(code));
    assert!(matches!(
        message(KeyCode::Char('r')),
        Some(Message::Testing(TestingMessage::RunSelectedGroup))
    ));
    assert!(matches!(
        message(KeyCode::Down),
        Some(Message::Testing(TestingMessage::SelectNextGroup))
    ));
    assert!(matches!(
        message(KeyCode::Up),
        Some(Message::Testing(TestingMessage::SelectPreviousGroup))
    ));
    assert!(matches!(
        message(KeyCode::Home),
        Some(Message::Testing(TestingMessage::SelectFirstGroup))
    ));
    assert!(matches!(
        message(KeyCode::End),
        Some(Message::Testing(TestingMessage::SelectLastGroup))
    ));
    assert!(matches!(
        message(KeyCode::Enter),
        Some(Message::Testing(TestingMessage::SetActiveComponent(ActiveComponent::Tests)))
    ));
    assert!(message(KeyCode::Esc).is_none());
    assert!(message(KeyCode::Char('x')).is_none());
    assert!(message(KeyCode::Other).is_none());
}

#[test]
fn keys_in_the_test_list_give_test_messages() {
    let mut state = TestingState::default();
    state.handle_message(TestingMessage::SetActiveComponent(ActiveComponent::Tests));
    let message = |code| state.handle_key_event(key(code));
    assert!(matches!(
        message(KeyCode::Char('r')),
        Some(Message::Testing(TestingMessage::RunSelectedTest))
    ));
    assert!(matches!(
        message(KeyCode::Down),
        Some(Message::Testing(TestingMessage::SelectNextTest))
    ));
    assert!(matches!(
        message(KeyCode::Up),
        Some(Message::Testing(TestingMessage::SelectPreviousTest))
    ));
    assert!(matches!(
        message(KeyCode::Home),
        Some(Message::Testing(TestingMessage::SelectFirstTest))
    ));
    assert!(matches!(
        message(KeyCode::End),
        Some(Message::Testing(TestingMessage::SelectLastTest))
    ));
    assert!(matches!(
        message(KeyCode::Esc),
        Some(Message::Testing(TestingMessage::SetActiveComponent(ActiveComponent::Groups)))
    ));
    assert!(message(KeyCode::Enter).is_none());
}

#[test]
fn escape_leaves_the_output_for_where_it_came_from() {
    let mut state = TestingState::default();
    state.handle_message(TestingMessage::SetActiveComponent(ActiveComponent::Output(
        OutputSource::Tests,
    )));
    assert!(matches!(
        state.handle_key_event(key(KeyCode::Esc)),
        Some(Message::Testing(TestingMessage::SetActiveComponent(ActiveComponent::Tests)))
    ));
    assert!(matches!(
        state.handle_key_event(key(KeyCode::Char('r'))),
        Some(Message::Testing(TestingMessage::RunSelectedTest))
    ));
    state.handle_message(TestingMessage::SetActiveComponent(ActiveComponent::Output(
        OutputSource::Groups,
    )));
    assert!(matches!(
        state.handle_key_event(key(KeyCode::Esc)),
        Some(Message::Testing(TestingMessage::SetActiveComponent(ActiveComponent::Groups)))
    ));
    assert!(matches!(
        state.handle_key_event(key(KeyCode::Char('r'))),
        Some(Message::Testing(TestingMessage::RunSelectedGroup))
    ));
    assert!(state.handle_key_event(key(KeyCode::Down)).is_none());
}

#[test]
fn selection_messages_move_the_selection() {
    let mut state = TestingState::default();
    assert!(matches!(state.handle_message(TestingMessage::SelectNextGroup), Effect::Nothing));
    assert_eq!(state.selected_group_index(), Some(1));
    state.handle_message(TestingMessage::SelectPreviousGroup);
    assert_eq!(state.selected_group_index(), Some(0));
    state.handle_message(TestingMessage::SelectLastGroup);
    assert_eq!(state.selected_group_index(), Some(usize::MAX));
    state.handle_message(TestingMessage::SelectFirstGroup);
    assert_eq!(state.selected_group_index(), Some(0));
    assert_eq!(state.selected_test_index(), Some(0));
    state.handle_message(TestingMessage::SelectNextTest);
    state.handle_message(TestingMessage::SelectNextTest);
    assert_eq!(state.selected_test_index(), Some(2));
    state.handle_message(TestingMessage::SelectPreviousTest);
    assert_eq!(state.selected_test_index(), Some(1));
    state.handle_message(TestingMessage::SelectLastTest);
    assert_eq!(state.selected_test_index(), Some(usize::MAX));
    state.handle_message(TestingMessage::SelectFirstTest);
    assert_eq!(state.selected_test_index(), Some(0));
    assert_eq!(state.selected_group_index(), Some(0));
}

#[test]
fn upserting_selects_the_first_test_where_none_is_selected() {
    let mut state = TestingState::default();
    state.tests_component_state.select(None);
    state.handle_message(TestingMessage::UpsertGroup(lib_group("a", &["t"])));
    assert_eq!(state.selected_test_index(), Some(0));
    state.tests_component_state.select(Some(3));
    state.handle_message(TestingMessage::UpsertGroup(lib_group("b", &["t"])));
    assert_eq!(state.selected_test_index(), Some(3));
    assert_eq!(state.groups().len(), 2);
}

#[test]
fn running_the_selected_group_asks_for_its_job() {
    let mut state = state_with_two_groups();
    match state.handle_message(TestingMessage::RunSelectedGroup) {
        Effect::Run { settle_previous, request: Some(request) } => {
            assert!(!settle_previous);
            assert_eq!(request.program, "cargo");
            assert_eq!(
                request.args,
                vec![
                    "test",
                    "--no-fail-fast",
                    "--color",
                    "always",
                    "--package",
                    "a",
                    "--lib",
                    "--",
                    "--color",
                    "always"
                ]
            );
            assert!(matches!(request.owner, JobOwner::Group(GroupKey::AutoGenerated(m)) if m.package_name == "a"));
        }
        _ => panic!("a selected auto-generated group gives a job"),
    }
    assert!(matches!(state.job(), Some(JobOwner::Group(_))));
}

#[test]
fn running_with_nothing_selected_starts_nothing() {
    let mut state = state_with_two_groups();
    state.handle_message(TestingMessage::SelectLastGroup);
    assert!(matches!(
        state.handle_message(TestingMessage::RunSelectedGroup),
        Effect::Run { settle_previous: false, request: None }
    ));
    assert!(state.job().is_none());
    let mut empty = TestingState::default();
    assert!(matches!(
        empty.handle_message(TestingMessage::RunSelectedTest),
        Effect::Run { settle_previous: false, request: None }
    ));
}

#[test]
fn a_custom_group_has_no_job() {
    let mut state = TestingState::default();
    let mine = CustomGroup::new(GroupName::new("mine"), vec![named("t")]);
    state.handle_message(TestingMessage::UpsertGroup(Group::Custom(mine)));
    assert!(matches!(
        state.handle_message(TestingMessage::RunSelectedGroup),
        Effect::Run { settle_previous: false, request: None }
    ));
    assert!(state.job().is_none());
}

#[test]
fn a_second_run_settles_the_first_and_lines_go_to_their_owner() {
    let mut state = state_with_two_groups();
    state.handle_message(TestingMessage::RunSelectedGroup);
    state.handle_message(TestingMessage::OutputFromGroupRun(lib_key("a"), "a 1".to_string()));
    state.handle_message(TestingMessage::SelectNextGroup);
    match state.handle_message(TestingMessage::RunSelectedGroup) {
        Effect::Run { settle_previous, request: Some(request) } => {
            assert!(settle_previous);
            assert!(matches!(request.owner, JobOwner::Group(GroupKey::AutoGenerated(m)) if m.package_name == "b"));
        }
        _ => panic!("the second group gives a job"),
    }
    assert!(matches!(state.job(), Some(JobOwner::Group(GroupKey::AutoGenerated(m))) if m.package_name == "b"));
    state.handle_message(TestingMessage::OutputFromGroupRun(lib_key("a"), "a late".to_string()));
    state.handle_message(TestingMessage::OutputFromGroupRun(lib_key("b"), "b 1".to_string()));
    assert_eq!(output_of(&state, &lib_key("a")), vec!["a 1", "a late"]);
    assert_eq!(output_of(&state, &lib_key("b")), vec!["b 1"]);
}

#[test]
fn a_line_for_a_dropped_group_changes_nothing() {
    let mut state = state_with_two_groups();
    state.handle_message(TestingMessage::RetainAutoGeneratedGroups(vec![GroupName::new(
        "b::lib [auto]",
    )]));
    assert_eq!(state.groups().len(), 1);
    assert!(matches!(
        state.handle_message(TestingMessage::OutputFromGroupRun(lib_key("a"), "stale".into())),
        Effect::Nothing
    ));
    assert_eq!(state.groups().len(), 1);
    assert!(output_of(&state, &lib_key("b")).is_empty());
}

#[test]
fn running_the_selected_test_starts_its_result() {
    let mut state = state_with_two_groups();
    state.handle_message(TestingMessage::SelectNextGroup);
    state.handle_message(TestingMessage::SelectNextTest);
    assert_eq!(state.selected_test().map(|t| t.name().as_str().to_string()), Some("t2".into()));
    match state.handle_message(TestingMessage::RunSelectedTest) {
        Effect::Run { settle_previous: false, request: Some(request) } => {
            assert_eq!(
                request.args,
                vec![
                    "test",
                    "--no-fail-fast",
                    "--color",
                    "always",
                    "t2",
                    "--",
                    "--color",
                    "always",
                    "--exact"
                ]
            );
            assert!(matches!(request.owner, JobOwner::Test(Test::Named(name)) if name.as_str() == "t2"));
        }
        _ => panic!("a selected test gives a job"),
    }
    state.handle_message(TestingMessage::OutputFromTestRun(named("t2"), "ok".to_string()));
    state.handle_message(TestingMessage::OutputFromTestRun(named("t1"), "stale".to_string()));
    let results = state.test_results().as_inner();
    assert_eq!(results.len(), 1);
    assert_eq!(results[0].0, named("t2"));
    assert_eq!(results[0].1.output, vec!["ok"]);
    assert_eq!(results[0].1.passed, None);
    state.clear_job();
    assert!(state.job().is_none());
}

#[test]
fn the_groups_of_the_workspace_are_there_before_their_tests() {
    let workspace = WorkspaceMetadata {
        packages: vec![Package {
            name: "p".to_string(),
            targets: vec![
                Target { name: "p".to_string(), kind: vec!["lib".to_string()] },
                Target { name: "it".to_string(), kind: vec!["test".to_string()] },
            ],
        }],
    };
    let mut state = TestingState::default();
    state.handle_message(TestingMessage::UpsertGroup(Group::AutoGenerated(
        AutoGeneratedGroup::new(metadata("p", TargetKind::Lib("p".into())), vec![named("known")]),
    )));
    state.init(&workspace);
    let names: Vec<String> =
        state.groups().as_slice().iter().map(|g| g.name().as_str().to_string()).collect();
    assert_eq!(names, vec!["p::lib [auto]", "p::tests [auto]", "p::test::it [auto]"]);
    assert_eq!(state.groups().get(0).expect("in range").tests().len(), 1);
    assert!(state.groups().get(1).expect("in range").tests().is_empty());
}
