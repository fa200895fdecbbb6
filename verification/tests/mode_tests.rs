use mini_vim::app_state::AppState;
use mini_vim::args::CustomArgs;
use mini_vim::cursor::Cursor;
use mini_vim::editor_mode::{CommandAction, CommandError, EditorMode};
use mini_vim::editor_state::State;

fn fresh_state() -> State {
    State {
        running: true,
        file: None,
        content: Vec::new(),
        cursor: Cursor::new(),
        stacked_command: None,
    }
}

fn command_mode(text: &str) -> EditorMode {
    let mut mode = EditorMode::Idle(None);
    mode.enter_command_mode();
    for ch in text.chars() {
        mode.update_command(ch);
    }
    mode
}

#[test]
fn editor_mode_new_reports_opened_file() {
    let mode = EditorMode::new(CustomArgs { file: Some(String::from("notes.txt")) });
    assert_eq!(mode.display_mode(), String::from("Opened a file"));
    let mode = EditorMode::new(CustomArgs { file: None });
    assert_eq!(mode.display_mode(), String::from("Opened untitiled file"));
}

#[test]
fn command_text_accumulates_and_shrinks() {
    let mut mode = command_mode("wx");
    assert_eq!(mode.display_mode(), String::from("=> wx"));
    mode.remove_from_command();
    assert_eq!(mode.display_mode(), String::from("=> w"));
    mode.update_command('q');
    assert_eq!(mode.command_action(), Ok(CommandAction::WriteQuit));
}

#[test]
fn remove_from_empty_command_is_noop() {
    let mut mode = command_mode("");
    mode.remove_from_command();
    assert_eq!(mode.display_mode(), String::from("=> "));
}

#[test]
fn update_command_outside_command_mode_is_noop() {
    let mut mode = EditorMode::Idle(None);
    mode.update_command('q');
    assert_eq!(mode.display_mode(), String::from("Idle"));
}

#[test]
fn command_action_recognises_the_fixed_set() {
    assert_eq!(command_mode("q").command_action(), Ok(CommandAction::Quit));
    assert_eq!(command_mode("quit").command_action(), Ok(CommandAction::Quit));
    assert_eq!(command_mode("w").command_action(), Ok(CommandAction::Write));
    assert_eq!(command_mode("write").command_action(), Ok(CommandAction::Write));
    assert_eq!(command_mode("wq").command_action(), Ok(CommandAction::WriteQuit));
    assert_eq!(command_mode("wqx").command_action(), Err(CommandError::UnknownCommand));
    assert_eq!(command_mode("").command_action(), Err(CommandError::UnknownCommand));
    assert_eq!(EditorMode::Idle(None).command_action(), Err(CommandError::NotCommandMode));
}

#[test]
fn apply_command_quit_ends_the_session() {
    let mut mode = command_mode("q");
    let mut state = fresh_state();
    let r = mode.apply_command(&mut state, Ok(()));
    assert_eq!(r, Ok(String::from("exiting mini-vim")));
    assert!(!state.running);
}

#[test]
fn apply_command_write_reports_success() {
    let mut mode = command_mode("w");
    let mut state = fresh_state();
    let r = mode.apply_command(&mut state, Ok(()));
    assert_eq!(r, Ok(String::from("File written successfully")));
    assert!(state.running);
}

#[test]
fn apply_command_write_surfaces_the_failure() {
    let mut mode = command_mode("write");
    let mut state = fresh_state();
    let r = mode.apply_command(&mut state, Err(String::from("No file in buffer")));
    let err = r.unwrap_err();
    assert_eq!(err, CommandError::WriteFailed(String::from("No file in buffer")));
    assert_eq!(err.message(), String::from("No file in buffer"));
    assert!(state.running);
}

#[test]
fn apply_command_write_quit_ends_session_only_on_success() {
    let mut mode = command_mode("wq");
    let mut state = fresh_state();
    let r = mode.apply_command(&mut state, Err(String::from("disk full")));
    assert_eq!(r, Err(CommandError::WriteFailed(String::from("disk full"))));
    assert!(state.running);
    let r = mode.apply_command(&mut state, Ok(()));
    assert_eq!(r, Ok(String::from("exiting mini-vim")));
    assert!(!state.running);
}

#[test]
fn apply_command_rejects_unknown_text() {
    let mut mode = command_mode("x");
    let mut state = fresh_state();
    let r = mode.apply_command(&mut state, Ok(()));
    let err = r.unwrap_err();
    assert_eq!(err, CommandError::UnknownCommand);
    assert_eq!(err.message(), String::from("no such command found"));
    assert!(state.running);
}

#[test]
fn apply_command_rejects_other_modes() {
    let mut mode = EditorMode::Edit(None);
    let mut state = fresh_state();
    let err = mode.apply_command(&mut state, Ok(())).unwrap_err();
    assert_eq!(err, CommandError::NotCommandMode);
    assert_eq!(err.message(), String::from("invalid location to evaluate a command"));
}

#[test]
fn editor_mode_file_name_is_the_last_path_component() {
    let mode = EditorMode::Edit(Some(String::from("dir/sub/file.txt")));
    assert_eq!(mode.get_file_name(), Some("file.txt"));
    let mode = EditorMode::Edit(Some(String::from("plain")));
    assert_eq!(mode.get_file_name(), Some("plain"));
    assert_eq!(EditorMode::Edit(None).get_file_name(), None);
    assert_eq!(EditorMode::Idle(None).get_file_name(), None);
}

#[test]
fn editor_mode_transitions() {
    let mut mode = EditorMode::new(CustomArgs { file: None });
    mode.enter_command_mode();
    assert_eq!(mode.display_mode(), String::from("=> "));
    mode.enter_edit_mode(Some(String::from("a.txt")));
    assert_eq!(mode.display_mode(), String::from("Edit"));
    mode.enter_idle_mode(Some(String::from("done")));
    assert_eq!(mode.display_mode(), String::from("done"));
    mode.enter_idle_mode(None);
    assert_eq!(mode.display_mode(), String::from("Idle"));
}

#[test]
fn app_state_new_follows_the_arguments() {
    let with_file = AppState::new(CustomArgs { file: Some(String::from("a/b.txt")) });
    assert_eq!(with_file.get_file_name(), Some("b.txt"));
    assert_eq!(with_file.display_mode(), String::from("Edit"));
    let without = AppState::new(CustomArgs { file: None });
    assert_eq!(without.get_file_name(), None);
    assert_eq!(without.display_mode(), String::from("Idle"));
}

#[test]
fn app_state_transitions() {
    let mut app = AppState::new(CustomArgs { file: None });
    app.enter_command_mode();
    assert_eq!(app.display_mode(), String::from("Command mode"));
    app.enter_edit_mode(None);
    assert_eq!(app.display_mode(), String::from("Edit"));
    app.enter_idle_mode();
    assert_eq!(app.display_mode(), String::from("Idle"));
}
