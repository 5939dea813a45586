use dwarf_seeks_fortune::components::movement_test::MovementTest;
use dwarf_seeks_fortune::states::decisions::{
    demo_event, editor_event, loading_event, loading_update, main_menu_event, movement_test_event,
    paused_event, play_event, test_level_file_name, window_command, Action, Command, GameEvent,
    KeyCode, MenuButton, NextState, Progress, Transition,
};

#[test]
fn loading_decisions() {
    assert_eq!(loading_update(Progress::Failed, true), Transition::Quit);
    assert_eq!(loading_update(Progress::Loading, false), Transition::Stay);
    assert_eq!(loading_update(Progress::Complete, true), Transition::Switch(NextState::Editor));
    assert_eq!(loading_update(Progress::Complete, false), Transition::Switch(NextState::MainMenu));
    assert_eq!(loading_event(GameEvent::KeyDown(KeyCode::Escape)), Transition::Quit);
    assert_eq!(loading_event(GameEvent::KeyDown(KeyCode::F1)), Transition::Stay);
}

#[test]
fn main_menu_buttons() {
    assert_eq!(main_menu_event(GameEvent::Clicked(MenuButton::Play)), Transition::Push(NextState::DemoPlay));
    assert_eq!(main_menu_event(GameEvent::Clicked(MenuButton::Editor)), Transition::Push(NextState::Editor));
    assert_eq!(main_menu_event(GameEvent::Clicked(MenuButton::Exit)), Transition::Quit);
    assert_eq!(main_menu_event(GameEvent::CloseRequested), Transition::Quit);
    assert_eq!(main_menu_event(GameEvent::Clicked(MenuButton::Other)), Transition::Stay);
}

#[test]
fn playing_returns_to_the_editor_in_editor_mode() {
    let esc = GameEvent::KeyDown(KeyCode::Escape);
    assert_eq!(play_event(esc, true), (Command::Nothing, Transition::Switch(NextState::Editor)));
    assert_eq!(play_event(esc, false), (Command::Nothing, Transition::Pop));
    assert_eq!(play_event(GameEvent::ActionPressed(Action::SpeedUp), false), (Command::SpeedUp, Transition::Stay));
    assert_eq!(play_event(GameEvent::ActionPressed(Action::SlowDown), true), (Command::SlowDown, Transition::Stay));
    assert_eq!(play_event(GameEvent::CloseRequested, true), (Command::Nothing, Transition::Quit));
}

#[test]
fn editor_keys() {
    assert_eq!(editor_event(GameEvent::KeyReleased(KeyCode::Return)), (Command::Paint, Transition::Stay));
    assert_eq!(editor_event(GameEvent::KeyReleased(KeyCode::Delete)), (Command::Erase, Transition::Stay));
    assert_eq!(editor_event(GameEvent::KeyReleased(KeyCode::F1)), (Command::AutoSave, Transition::Switch(NextState::EditorPlay)));
    assert_eq!(editor_event(GameEvent::KeyDown(KeyCode::Escape)), (Command::AutoSave, Transition::Pop));
    assert_eq!(editor_event(GameEvent::KeyReleased(KeyCode::LBracket)), (Command::PreviousBrush, Transition::Stay));
    assert_eq!(editor_event(GameEvent::KeyReleased(KeyCode::RBracket)), (Command::NextBrush, Transition::Stay));
    assert_eq!(editor_event(GameEvent::KeyPressed(KeyCode::Return)), (Command::Nothing, Transition::Stay));
}

#[test]
fn other_states() {
    assert_eq!(paused_event(GameEvent::KeyDown(KeyCode::Escape)), Transition::Pop);
    assert_eq!(paused_event(GameEvent::CloseRequested), Transition::Stay);
    assert_eq!(demo_event(GameEvent::Resized), (Command::MarkResizing, Transition::Stay));
    assert_eq!(demo_event(GameEvent::KeyDown(KeyCode::F1)), (Command::Nothing, Transition::Quit));
    assert_eq!(demo_event(GameEvent::KeyDown(KeyCode::Escape)), (Command::Nothing, Transition::Push(NextState::Paused)));
    assert_eq!(movement_test_event(GameEvent::KeyPressed(KeyCode::Key1)), (Command::RunTest(MovementTest::Jump2Wide), Transition::Stay));
    assert_eq!(movement_test_event(GameEvent::KeyPressed(KeyCode::Key2)), (Command::RunTest(MovementTest::Jump4Wide), Transition::Stay));
    assert_eq!(movement_test_event(GameEvent::KeyPressed(KeyCode::Key3)), (Command::Nothing, Transition::Stay));
    assert_eq!(window_command(GameEvent::ActionPressed(Action::ToggleFullscreen)), Command::ToggleFullscreen);
    assert_eq!(window_command(GameEvent::Resized), Command::ResizeCamera);
    assert_eq!(window_command(GameEvent::Other), Command::Nothing);
}

#[test]
fn test_level_files() {
    assert_eq!(test_level_file_name(&MovementTest::Jump2Wide), "jump_2_wide.ron");
    assert_eq!(test_level_file_name(&MovementTest::Jump4Wide), "jump_4_wide.ron");
}

#[test]
fn other_key_releases_do_nothing_in_the_editor() {
    for key in [KeyCode::Escape, KeyCode::Key1, KeyCode::Key2, KeyCode::Key3, KeyCode::Other] {
        assert_eq!(
            editor_event(GameEvent::KeyReleased(key)),
            (Command::Nothing, Transition::Stay)
        );
    }
    assert_eq!(editor_event(GameEvent::Resized), (Command::Nothing, Transition::Stay));
}
