use kvedit::app::{App, CurrentScreen, CurrentlyEditing, InputKey, Step};

fn editing_app() -> App {
    let mut app = App::new();
    app.enter_edit_mode();
    app
}

#[test]
fn new_editor_starts_clean() {
    let app = App::new();
    assert_eq!(app.key_input, "");
    assert_eq!(app.value_input, "");
    assert!(app.pairs.is_empty());
    assert!(matches!(app.current_screen, CurrentScreen::Main));
    assert!(app.currently_editing.is_none());
}

#[test]
fn append_then_delete_restores_buffer() {
    let mut app = editing_app();
    app.append_char('h');
    app.append_char('i');
    let before = app.key_input.clone();
    app.append_char('x');
    app.append_char('y');
    app.append_char('z');
    app.delete_last_char();
    app.delete_last_char();
    app.delete_last_char();
    assert_eq!(app.key_input, before);
    assert_eq!(app.key_input, "hi");
    assert_eq!(app.value_input, "");
}

#[test]
fn advance_twice_from_key_commits() {
    let mut app = editing_app();
    app.append_char('n');
    app.advance_field();
    assert!(matches!(app.currently_editing, Some(CurrentlyEditing::Value)));
    app.append_char('v');
    app.advance_field();
    assert!(matches!(app.current_screen, CurrentScreen::Main));
    assert!(app.currently_editing.is_none());
    assert_eq!(app.key_input, "");
    assert_eq!(app.value_input, "");
    assert_eq!(app.pairs.len(), 1);
    assert_eq!(app.pairs[0].0, "n");
    assert_eq!(app.pairs[0].1, "v");
}

#[test]
fn toggle_editing_swaps_focus() {
    let mut app = editing_app();
    assert!(matches!(app.currently_editing, Some(CurrentlyEditing::Key)));
    app.toggle_editing();
    assert!(matches!(app.currently_editing, Some(CurrentlyEditing::Value)));
    app.toggle_editing();
    assert!(matches!(app.currently_editing, Some(CurrentlyEditing::Key)));
    assert!(matches!(app.current_screen, CurrentScreen::Editing));
}

#[test]
fn cancel_edit_keeps_buffer_text() {
    let mut app = editing_app();
    app.append_char('a');
    app.cancel_edit();
    assert!(matches!(app.current_screen, CurrentScreen::Main));
    assert!(app.currently_editing.is_none());
    assert_eq!(app.key_input, "a");
}

#[test]
fn illegal_keys_are_ignored_in_main() {
    let mut app = App::new();
    for k in [
        InputKey::Char('x'),
        InputKey::Enter,
        InputKey::Backspace,
        InputKey::Tab,
        InputKey::Other,
    ] {
        let step = app.handle_key(k);
        assert_eq!(step, Step::Continue);
        assert!(matches!(app.current_screen, CurrentScreen::Main));
        assert!(app.currently_editing.is_none());
        assert_eq!(app.key_input, "");
        assert_eq!(app.value_input, "");
        assert!(app.pairs.is_empty());
    }
}

#[test]
fn illegal_keys_are_ignored_in_exiting() {
    let mut app = App::new();
    assert_eq!(app.handle_key(InputKey::Char('q')), Step::Continue);
    assert!(matches!(app.current_screen, CurrentScreen::Exiting));
    for k in [InputKey::Char('e'), InputKey::Enter, InputKey::Esc, InputKey::Other] {
        let step = app.handle_key(k);
        assert_eq!(step, Step::Continue);
        assert!(matches!(app.current_screen, CurrentScreen::Exiting));
    }
}

#[test]
fn exit_confirm_signals_save_and_quit() {
    let mut app = App::new();
    assert_eq!(app.handle_key(InputKey::Char('q')), Step::Continue);
    assert!(matches!(app.current_screen, CurrentScreen::Exiting));
    assert!(app.confirm_exit());
    assert_eq!(app.handle_key(InputKey::Char('y')), Step::SaveAndQuit);
}

#[test]
fn exit_cancel_signals_quit_without_save() {
    let mut app = App::new();
    assert_eq!(app.handle_key(InputKey::Esc), Step::Continue);
    assert!(matches!(app.current_screen, CurrentScreen::Exiting));
    assert!(!app.cancel_exit());
    assert_eq!(app.handle_key(InputKey::Char('n')), Step::QuitWithoutSave);
    let mut again = App::new();
    again.handle_key(InputKey::Char('q'));
    assert_eq!(again.handle_key(InputKey::Char('q')), Step::QuitWithoutSave);
}

#[test]
fn delete_on_empty_buffer_is_noop() {
    let mut app = editing_app();
    app.delete_last_char();
    assert_eq!(app.key_input, "");
    app.toggle_editing();
    app.delete_last_char();
    assert_eq!(app.value_input, "");
    assert!(matches!(app.current_screen, CurrentScreen::Editing));
}

#[test]
fn commit_same_key_overwrites() {
    let mut app = App::new();
    for (k, v) in [("name", "Alice"), ("name", "Bob")] {
        app.handle_key(InputKey::Char('e'));
        for c in k.chars() {
            app.handle_key(InputKey::Char(c));
        }
        app.handle_key(InputKey::Enter);
        for c in v.chars() {
            app.handle_key(InputKey::Char(c));
        }
        assert_eq!(app.handle_key(InputKey::Enter), Step::Committed);
    }
    assert_eq!(app.pairs.len(), 1);
    assert_eq!(app.pairs[0].0, "name");
    assert_eq!(app.pairs[0].1, "Bob");
}

#[test]
fn commit_empty_buffers_commits_empty_pair() {
    let mut app = editing_app();
    app.advance_field();
    app.advance_field();
    assert_eq!(app.pairs.len(), 1);
    assert_eq!(app.pairs[0].0, "");
    assert_eq!(app.pairs[0].1, "");
}

#[test]
fn save_key_value_clears_buffers() {
    let mut app = editing_app();
    app.append_char('a');
    app.toggle_editing();
    app.append_char('b');
    app.save_key_value();
    assert_eq!(app.key_input, "");
    assert_eq!(app.value_input, "");
    assert!(app.currently_editing.is_none());
    assert_eq!(app.pairs.len(), 1);
    assert_eq!(app.pairs[0].0, "a");
    assert_eq!(app.pairs[0].1, "b");
}

#[test]
fn export_snapshots_pairs() {
    let mut app = editing_app();
    app.append_char('k');
    app.advance_field();
    app.append_char('w');
    app.advance_field();
    let snapshot = app.export();
    assert_eq!(snapshot.len(), 1);
    assert_eq!(snapshot[0].0, "k");
    assert_eq!(snapshot[0].1, "w");
    assert_eq!(app.pairs.len(), 1);
}
