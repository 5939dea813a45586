use crate::components::movement_test::MovementTest;
use vstd::prelude::*;

verus! {

/// The keys that the game states react to.
#[derive(Debug, Clone, Copy, PartialEq, Eq, Structural)]
pub enum KeyCode {
    Escape,
    F1,
    Return,
    Delete,
    LBracket,
    RBracket,
    Key1,
    Key2,
    Key3,
    Other,
}

/// The named input actions that the game states react to.
#[derive(Debug, Clone, Copy, PartialEq, Eq, Structural)]
pub enum Action {
    SpeedUp,
    SlowDown,
    ToggleFullscreen,
    Other,
}

/// The buttons of the main menu.
#[derive(Debug, Clone, Copy, PartialEq, Eq, Structural)]
pub enum MenuButton {
    Play,
    Editor,
    Exit,
    Other,
}

/// An event as the game states see it.
#[derive(Debug, Clone, Copy, PartialEq, Eq, Structural)]
pub enum GameEvent {
    /// The window was asked to close.
    CloseRequested,
    /// The window was resized.
    Resized,
    /// A window event reporting a key held down.
    KeyDown(KeyCode),
    /// An input event: a key was pressed.
    KeyPressed(KeyCode),
    /// An input event: a key was released.
    KeyReleased(KeyCode),
    /// An input event: a named action was pressed.
    ActionPressed(Action),
    /// A button of the user interface was clicked.
    Clicked(MenuButton),
    /// Anything else.
    Other,
}

/// A state to go to.
#[derive(Debug, Clone, Copy, PartialEq, Eq, Structural)]
pub enum NextState {
    MainMenu,
    Editor,
    /// Playing the demo level.
    DemoPlay,
    /// Playing the level being edited, returning to the editor afterwards.
    EditorPlay,
    Paused,
}

/// What the state machine does after an event.
#[derive(Debug, Clone, Copy, PartialEq, Eq, Structural)]
pub enum Transition {
    /// Stay in the current state.
    Stay,
    Pop,
    Push(NextState),
    Switch(NextState),
    Quit,
}

/// The work a state does in response to an event, before the transition.
#[derive(Debug, Clone, Copy, PartialEq, Eq, Structural)]
pub enum Command {
    Nothing,
    /// Paint the selection with the brush.
    Paint,
    /// Erase the selection.
    Erase,
    /// Save the level being edited.
    AutoSave,
    /// Select the previous tile for the brush.
    PreviousBrush,
    /// Select the next tile for the brush.
    NextBrush,
    /// Make time run faster.
    SpeedUp,
    /// Make time run slower.
    SlowDown,
    /// Set up a movement test.
    RunTest(MovementTest),
    /// Note that the window is being resized.
    MarkResizing,
    /// Switch between windowed and fullscreen.
    ToggleFullscreen,
    /// Recreate the camera for the new window size.
    ResizeCamera,
}

/// How far asset loading has come.
#[derive(Debug, Clone, Copy, PartialEq, Eq, Structural)]
pub enum Progress {
    Loading,
    Complete,
    Failed,
}

/// The behaviour shared by the states: toggle fullscreen on request, and recreate the
/// camera when the window is resized.
pub fn window_command(event: GameEvent) -> (res: Command)
    ensures
        event == GameEvent::ActionPressed(Action::ToggleFullscreen) ==> res
            == Command::ToggleFullscreen,
        event == GameEvent::Resized ==> res == Command::ResizeCamera,
        event != GameEvent::ActionPressed(Action::ToggleFullscreen) && event != GameEvent::Resized
            ==> res == Command::Nothing,
{
    match event {
        GameEvent::ActionPressed(Action::ToggleFullscreen) => Command::ToggleFullscreen,
        GameEvent::Resized => Command::ResizeCamera,
        _ => Command::Nothing,
    }
}

/// While loading: quit when the window closes or Escape is held.
pub fn loading_event(event: GameEvent) -> (res: Transition)
    ensures
        event == GameEvent::CloseRequested || event == GameEvent::KeyDown(KeyCode::Escape) ==> res
            == Transition::Quit,
        !(event == GameEvent::CloseRequested || event == GameEvent::KeyDown(KeyCode::Escape)) ==> res
            == Transition::Stay,
{
    match event {
        GameEvent::CloseRequested => Transition::Quit,
        GameEvent::KeyDown(KeyCode::Escape) => Transition::Quit,
        _ => Transition::Stay,
    }
}

/// Once loading is done, go to the main menu, or straight to the editor if so configured.
/// Quit if loading failed.
pub fn loading_update(progress: Progress, skip_straight_to_editor: bool) -> (res: Transition)
    ensures
        progress == Progress::Failed ==> res == Transition::Quit,
        progress == Progress::Loading ==> res == Transition::Stay,
        progress == Progress::Complete && skip_straight_to_editor ==> res == Transition::Switch(
            NextState::Editor,
        ),
        progress == Progress::Complete && !skip_straight_to_editor ==> res == Transition::Switch(
            NextState::MainMenu,
        ),
{
    match progress {
        Progress::Failed => Transition::Quit,
        Progress::Complete => if skip_straight_to_editor {
            Transition::Switch(NextState::Editor)
        } else {
            Transition::Switch(NextState::MainMenu)
        },
        Progress::Loading => Transition::Stay,
    }
}

/// The main menu: its buttons open the demo or the editor, or quit.
pub fn main_menu_event(event: GameEvent) -> (res: Transition)
    ensures
        event == GameEvent::CloseRequested || event == GameEvent::KeyDown(KeyCode::Escape) || event
            == GameEvent::Clicked(MenuButton::Exit) ==> res == Transition::Quit,
        event == GameEvent::Clicked(MenuButton::Play) ==> res == Transition::Push(NextState::DemoPlay),
        event == GameEvent::Clicked(MenuButton::Editor) ==> res == Transition::Push(NextState::Editor),
        !(event == GameEvent::CloseRequested || event == GameEvent::KeyDown(KeyCode::Escape) || event
            is Clicked) || event == GameEvent::Clicked(MenuButton::Other) ==> res == Transition::Stay,
{
    match event {
        GameEvent::CloseRequested => Transition::Quit,
        GameEvent::KeyDown(KeyCode::Escape) => Transition::Quit,
        GameEvent::Clicked(MenuButton::Play) => Transition::Push(NextState::DemoPlay),
        GameEvent::Clicked(MenuButton::Editor) => Transition::Push(NextState::Editor),
        GameEvent::Clicked(MenuButton::Exit) => Transition::Quit,
        _ => Transition::Stay,
    }
}

/// While playing: Escape leaves the level, back to the editor if it was started from there.
/// The speed actions change how fast time runs.
pub fn play_event(event: GameEvent, editor_mode: bool) -> (res: (Command, Transition))
    ensures
        event == GameEvent::CloseRequested ==> res == (Command::Nothing, Transition::Quit),
        event == GameEvent::KeyDown(KeyCode::Escape) && editor_mode ==> res == (
            Command::Nothing,
            Transition::Switch(NextState::Editor),
        ),
        event == GameEvent::KeyDown(KeyCode::Escape) && !editor_mode ==> res == (
            Command::Nothing,
            Transition::Pop,
        ),
        event == GameEvent::ActionPressed(Action::SpeedUp) ==> res == (
            Command::SpeedUp,
            Transition::Stay,
        ),
        event == GameEvent::ActionPressed(Action::SlowDown) ==> res == (
            Command::SlowDown,
            Transition::Stay,
        ),
        !(event == GameEvent::CloseRequested || event == GameEvent::KeyDown(KeyCode::Escape) || event
            == GameEvent::ActionPressed(Action::SpeedUp) || event == GameEvent::ActionPressed(
            Action::SlowDown,
        )) ==> res == (Command::Nothing, Transition::Stay),
{
    match event {
        GameEvent::CloseRequested => (Command::Nothing, Transition::Quit),
        GameEvent::KeyDown(KeyCode::Escape) => if editor_mode {
            (Command::Nothing, Transition::Switch(NextState::Editor))
        } else {
            (Command::Nothing, Transition::Pop)
        },
        GameEvent::ActionPressed(Action::SpeedUp) => (Command::SpeedUp, Transition::Stay),
        GameEvent::ActionPressed(Action::SlowDown) => (Command::SlowDown, Transition::Stay),
        _ => (Command::Nothing, Transition::Stay),
    }
}

/// In the editor: Return paints, Delete erases, the brackets cycle through the brush's
/// tiles, F1 saves and plays the level, and closing or Escape saves and leaves.
pub fn editor_event(event: GameEvent) -> (res: (Command, Transition))
    ensures
        event == GameEvent::CloseRequested || event == GameEvent::KeyDown(KeyCode::Escape) ==> res
            == (Command::AutoSave, Transition::Pop),
        event == GameEvent::KeyReleased(KeyCode::Return) ==> res == (
            Command::Paint,
            Transition::Stay,
        ),
        event == GameEvent::KeyReleased(KeyCode::Delete) ==> res == (
            Command::Erase,
            Transition::Stay,
        ),
        event == GameEvent::KeyReleased(KeyCode::F1) ==> res == (
            Command::AutoSave,
            Transition::Switch(NextState::EditorPlay),
        ),
        event == GameEvent::KeyReleased(KeyCode::LBracket) ==> res == (
            Command::PreviousBrush,
            Transition::Stay,
        ),
        event == GameEvent::KeyReleased(KeyCode::RBracket) ==> res == (
            Command::NextBrush,
            Transition::Stay,
        ),
        !(event == GameEvent::CloseRequested || event == GameEvent::KeyDown(KeyCode::Escape) || event
            == GameEvent::KeyReleased(KeyCode::Return) || event == GameEvent::KeyReleased(
            KeyCode::Delete,
        ) || event == GameEvent::KeyReleased(KeyCode::F1) || event == GameEvent::KeyReleased(
            KeyCode::LBracket,
        ) || event == GameEvent::KeyReleased(KeyCode::RBracket)) ==> res == (
            Command::Nothing,
            Transition::Stay,
        ),
{
    match event {
        GameEvent::CloseRequested => (Command::AutoSave, Transition::Pop),
        GameEvent::KeyDown(KeyCode::Escape) => (Command::AutoSave, Transition::Pop),
        GameEvent::KeyReleased(KeyCode::Return) => (Command::Paint, Transition::Stay),
        GameEvent::KeyReleased(KeyCode::Delete) => (Command::Erase, Transition::Stay),
        GameEvent::KeyReleased(KeyCode::F1) => (
            Command::AutoSave,
            Transition::Switch(NextState::EditorPlay),
        ),
        GameEvent::KeyReleased(KeyCode::LBracket) => (Command::PreviousBrush, Transition::Stay),
        GameEvent::KeyReleased(KeyCode::RBracket) => (Command::NextBrush, Transition::Stay),
        _ => (Command::Nothing, Transition::Stay),
    }
}

/// While paused: Escape goes back to the game.
pub fn paused_event(event: GameEvent) -> (res: Transition)
    ensures
        event == GameEvent::KeyDown(KeyCode::Escape) ==> res == Transition::Pop,
        event != GameEvent::KeyDown(KeyCode::Escape) ==> res == Transition::Stay,
{
    match event {
        GameEvent::KeyDown(KeyCode::Escape) => Transition::Pop,
        _ => Transition::Stay,
    }
}

/// In the demo: resizing is noted, F1 or closing quits, Escape pauses, and the speed
/// actions change how fast time runs.
pub fn demo_event(event: GameEvent) -> (res: (Command, Transition))
    ensures
        event == GameEvent::Resized ==> res == (Command::MarkResizing, Transition::Stay),
        event == GameEvent::CloseRequested || event == GameEvent::KeyDown(KeyCode::F1) ==> res == (
            Command::Nothing,
            Transition::Quit,
        ),
        event == GameEvent::KeyDown(KeyCode::Escape) ==> res == (
            Command::Nothing,
            Transition::Push(NextState::Paused),
        ),
        event == GameEvent::ActionPressed(Action::SpeedUp) ==> res == (
            Command::SpeedUp,
            Transition::Stay,
        ),
        event == GameEvent::ActionPressed(Action::SlowDown) ==> res == (
            Command::SlowDown,
            Transition::Stay,
        ),
        !(event == GameEvent::Resized || event == GameEvent::CloseRequested || event
            == GameEvent::KeyDown(KeyCode::F1) || event == GameEvent::KeyDown(KeyCode::Escape)
            || event == GameEvent::ActionPressed(Action::SpeedUp) || event == GameEvent::ActionPressed(
            Action::SlowDown,
        )) ==> res == (Command::Nothing, Transition::Stay),
{
    match event {
        GameEvent::Resized => (Command::MarkResizing, Transition::Stay),
        GameEvent::CloseRequested => (Command::Nothing, Transition::Quit),
        GameEvent::KeyDown(KeyCode::F1) => (Command::Nothing, Transition::Quit),
        GameEvent::KeyDown(KeyCode::Escape) => (Command::Nothing, Transition::Push(NextState::Paused)),
        GameEvent::ActionPressed(Action::SpeedUp) => (Command::SpeedUp, Transition::Stay),
        GameEvent::ActionPressed(Action::SlowDown) => (Command::SlowDown, Transition::Stay),
        _ => (Command::Nothing, Transition::Stay),
    }
}

/// In the movement test state: keys 1 and 2 set up a test; Escape leaves; closing quits.
pub fn movement_test_event(event: GameEvent) -> (res: (Command, Transition))
    ensures
        event == GameEvent::CloseRequested ==> res == (Command::Nothing, Transition::Quit),
        event == GameEvent::KeyDown(KeyCode::Escape) ==> res == (Command::Nothing, Transition::Pop),
        event == GameEvent::KeyPressed(KeyCode::Key1) ==> res == (
            Command::RunTest(MovementTest::Jump2Wide),
            Transition::Stay,
        ),
        event == GameEvent::KeyPressed(KeyCode::Key2) ==> res == (
            Command::RunTest(MovementTest::Jump4Wide),
            Transition::Stay,
        ),
        !(event == GameEvent::CloseRequested || event == GameEvent::KeyDown(KeyCode::Escape) || event
            == GameEvent::KeyPressed(KeyCode::Key1) || event == GameEvent::KeyPressed(KeyCode::Key2))
            ==> res == (Command::Nothing, Transition::Stay),
{
    match event {
        GameEvent::CloseRequested => (Command::Nothing, Transition::Quit),
        GameEvent::KeyDown(KeyCode::Escape) => (Command::Nothing, Transition::Pop),
        GameEvent::KeyPressed(KeyCode::Key1) => (
            Command::RunTest(MovementTest::Jump2Wide),
            Transition::Stay,
        ),
        GameEvent::KeyPressed(KeyCode::Key2) => (
            Command::RunTest(MovementTest::Jump4Wide),
            Transition::Stay,
        ),
        _ => (Command::Nothing, Transition::Stay),
    }
}

/// The file, in the tests folder of the assets, that holds the level of a movement test.
pub fn test_level_file_name(test: &MovementTest) -> (res: &'static str)
    ensures
        *test == MovementTest::Jump2Wide ==> res@ == "jump_2_wide.ron"@,
        *test == MovementTest::Jump4Wide ==> res@ == "jump_4_wide.ron"@,
{
    match test {
        MovementTest::Jump2Wide => "jump_2_wide.ron",
        MovementTest::Jump4Wide => "jump_4_wide.ron",
    }
}

} // verus!
