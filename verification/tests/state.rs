//! Tests of the state logic around the notes: key bindings, list
//! bookkeeping, the rename and delete flows, storage paths, and the
//! string helpers.

use rnote::commands::{Command, Key, KeyPress, Mods, View};
use rnote::notes::{age_label, AppState, Effect, Note, RenameOutcome};
use rnote::storage::{FSStorage, StorageError};
use rnote::commands::key_to_command;
use rnote::strutil::{repeat_str, split_lines, u64_to_decimal, zero_padded_decimal};
use rnote::theme::AppTheme;

fn key(code: Key, mods: Mods) -> KeyPress {
    KeyPress { code, mods }
}

fn note(title: &str, order: usize) -> Note {
    Note {
        title: title.to_string(),
        content: String::new(),
        created_at: 0,
        updated_at: 0,
        selected: false,
        order,
    }
}

fn state_with(titles: &[&str]) -> AppState {
    let mut s = AppState::default();
    for (i, t) in titles.iter().enumerate() {
        s.notes.push(note(t, i));
    }
    s
}

#[test]
fn key_bindings() {
    let v = View::LivePreview;
    assert_eq!(key_to_command(v, key(Key::Char('q'), Mods::Control)), Some(Command::Quit));
    assert_eq!(key_to_command(v, key(Key::Down, Mods::Control)), Some(Command::NextNote));
    assert_eq!(key_to_command(v, key(Key::Up, Mods::Control)), Some(Command::PreviousNote));
    assert_eq!(key_to_command(v, key(Key::Up, Mods::Alt)), Some(Command::MoveNoteUp));
    assert_eq!(key_to_command(v, key(Key::Down, Mods::Alt)), Some(Command::MoveNoteDown));
    assert_eq!(
        key_to_command(v, key(Key::Char('e'), Mods::Control)),
        Some(Command::SwitchView(View::Editor))
    );
    assert_eq!(key_to_command(v, key(Key::Char('n'), Mods::Control)), Some(Command::NewNote));
    assert_eq!(key_to_command(v, key(Key::Char('z'), Mods::Control)), None);
    assert_eq!(key_to_command(v, key(Key::Char('q'), Mods::Plain)), None);

    // Enter and escape only act in the rename dialog...
    assert_eq!(key_to_command(v, key(Key::Enter, Mods::Plain)), None);
    assert_eq!(
        key_to_command(View::Rename, key(Key::Enter, Mods::Plain)),
        Some(Command::SubmitRename)
    );
    assert_eq!(
        key_to_command(View::Rename, key(Key::Esc, Mods::Plain)),
        Some(Command::CancelRename)
    );

    // ...and in the delete confirmation they confirm or cancel.
    assert_eq!(
        key_to_command(View::DeleteConfirm, key(Key::Enter, Mods::Plain)),
        Some(Command::DeleteNote)
    );
    assert_eq!(
        key_to_command(View::DeleteConfirm, key(Key::Esc, Mods::Plain)),
        Some(Command::CancelRename)
    );
    assert_eq!(key_to_command(View::DeleteConfirm, key(Key::Char('q'), Mods::Control)), None);
}

#[test]
fn selection_wraps_both_ways() {
    let mut s = state_with(&["a", "b", "c"]);
    assert_eq!(s.selected, 0);
    s.select_next_note();
    assert_eq!(s.selected, 1);
    s.select_next_note();
    s.select_next_note();
    assert_eq!(s.selected, 0);
    s.select_previous_note();
    assert_eq!(s.selected, 2);
}

#[test]
fn moving_notes_swaps_them_and_their_orders() {
    let mut s = state_with(&["a", "b", "c"]);
    s.selected = 1;
    assert!(s.move_note_up());
    assert_eq!(s.selected, 0);
    assert_eq!(s.notes[0].title, "b");
    assert_eq!(s.notes[0].order, 0);
    assert_eq!(s.notes[1].title, "a");
    assert_eq!(s.notes[1].order, 1);

    // At the top there is nothing to swap with.
    assert!(!s.move_note_up());

    assert!(s.move_note_down());
    assert_eq!(s.selected, 1);
    assert_eq!(s.notes[0].title, "a");
    assert_eq!(s.notes[1].title, "b");
}

#[test]
fn delete_needs_confirmation_and_closes_ranks() {
    let mut s = state_with(&["a", "b", "c"]);
    s.selected = 1;
    assert!(s.delete_current_note().is_none());
    assert_eq!(s.notes.len(), 3);

    s.confirm_delete = true;
    let deleted = s.delete_current_note();
    assert_eq!(deleted.as_deref(), Some("b"));
    assert!(!s.confirm_delete);
    assert_eq!(s.notes.len(), 2);
    assert_eq!(s.notes[0].title, "a");
    assert_eq!(s.notes[0].order, 0);
    assert_eq!(s.notes[1].title, "c");
    assert_eq!(s.notes[1].order, 1);
}

#[test]
fn deleting_the_last_note_opens_the_new_note_dialog() {
    let mut s = state_with(&["only"]);
    s.confirm_delete = true;
    let deleted = s.delete_current_note();
    assert_eq!(deleted.as_deref(), Some("only"));
    assert!(s.notes.is_empty());
    assert_eq!(s.current_view, View::Rename);
    assert!(s.creating_new_note);
}

#[test]
fn rename_input_edits_the_buffer() {
    let mut s = AppState::default();
    s.handle_rename_input(Key::Char('h'));
    s.handle_rename_input(Key::Char('i'));
    assert_eq!(s.rename_buffer, "hi");
    s.handle_rename_input(Key::Backspace);
    assert_eq!(s.rename_buffer, "h");
    s.handle_rename_input(Key::Backspace);
    s.handle_rename_input(Key::Backspace);
    assert_eq!(s.rename_buffer, "");
}

#[test]
fn submit_rename_creates_a_note_at_the_end_of_the_order() {
    let mut s = state_with(&["a", "b"]);
    s.notes[1].order = 7;
    s.create_new_note();
    s.rename_buffer = "fresh".to_string();
    let r = s.submit_rename(99);
    assert!(matches!(r, RenameOutcome::Created));
    assert_eq!(s.notes.len(), 3);
    let new = &s.notes[2];
    assert_eq!(new.title, "fresh");
    assert_eq!(new.content, "");
    assert_eq!(new.created_at, 99);
    assert_eq!(new.order, 8);
    assert_eq!(s.selected, 2);
    assert_eq!(s.current_view, View::LivePreview);
}

#[test]
fn submit_rename_renames_the_selected_note() {
    let mut s = state_with(&["a", "b"]);
    s.selected = 1;
    s.start_rename();
    assert_eq!(s.rename_buffer, "b");
    assert_eq!(s.current_view, View::Rename);
    s.handle_rename_input(Key::Char('!'));
    let r = s.submit_rename(5);
    match r {
        RenameOutcome::Renamed(old) => assert_eq!(old, "b"),
        _ => panic!("expected a rename"),
    }
    assert_eq!(s.notes[1].title, "b!");
    assert_eq!(s.notes[1].updated_at, 5);
    assert_eq!(s.rename_buffer, "");
}

#[test]
fn empty_rename_buffer_submits_nothing() {
    let mut s = state_with(&["a"]);
    s.current_view = View::Rename;
    let r = s.submit_rename(5);
    assert!(matches!(r, RenameOutcome::Nothing));
    assert_eq!(s.notes[0].title, "a");
}

#[test]
fn delete_command_flows_through_confirmation() {
    let mut s = state_with(&["a"]);
    let e = s.execute_command(Command::DeleteNote, 0);
    assert!(matches!(e, Effect::Nothing));
    assert_eq!(s.current_view, View::DeleteConfirm);

    let e = s.execute_command(Command::DeleteNote, 0);
    match e {
        Effect::DeleteStored(title) => assert_eq!(title, "a"),
        _ => panic!("expected the stored note to be deleted"),
    }
    assert_eq!(s.current_view, View::LivePreview);
}

#[test]
fn scrolling_only_moves_a_visible_preview() {
    let mut s = AppState::default();
    s.execute_command(Command::ScrollDown, 0);
    assert_eq!(s.preview_scroll_offset, 5);
    s.execute_command(Command::ScrollUp, 0);
    assert_eq!(s.preview_scroll_offset, 0);
    s.execute_command(Command::ScrollUp, 0);
    assert_eq!(s.preview_scroll_offset, 0);

    s.current_view = View::Editor;
    s.execute_command(Command::ScrollDown, 0);
    assert_eq!(s.preview_scroll_offset, 0);
}

#[test]
fn editor_content_lands_in_the_selected_note() {
    let mut s = state_with(&["a"]);
    s.save_editor_content("body text".to_string(), 42);
    assert_eq!(s.notes[0].content, "body text");
    assert_eq!(s.notes[0].updated_at, 42);
}

#[test]
fn note_paths_are_sanitized_and_joined() {
    let store = FSStorage::with_root_dir("/tmp/notes");
    assert_eq!(store.get_note_path("hello"), "/tmp/notes/hello.md");
    assert_eq!(store.get_metadata_path("hello"), "/tmp/notes/hello.meta.json");
    assert_eq!(store.get_note_path("a/b\\c"), "/tmp/notes/a_b_c.md");

    let slashed = FSStorage::with_root_dir("/tmp/notes/");
    assert_eq!(slashed.get_note_path("x"), "/tmp/notes/x.md");

    let bare = FSStorage::with_root_dir("");
    assert_eq!(bare.get_note_path("x"), "x.md");
}

#[test]
fn storage_errors_have_their_messages() {
    assert_eq!(StorageError::Io("broken".to_string()).message(), "IO error: broken");
    assert_eq!(
        StorageError::DirectoryCreation("/r".to_string()).message(),
        "Failed to create note directory at /r"
    );
    assert_eq!(
        StorageError::NoteNotFound("x".to_string()).message(),
        "Note with title x not found"
    );
    assert_eq!(
        StorageError::MetadataParse("eof".to_string()).message(),
        "Failed to parse note metadata: eof"
    );
}

#[test]
fn themes_carry_their_palettes() {
    let dark = AppTheme::dark();
    let light = AppTheme::light();
    assert_eq!(dark, AppTheme::default());
    assert_ne!(dark.background, light.background);
    assert!(dark.title_style.bold && light.title_style.bold);
}

#[test]
fn string_helpers() {
    assert_eq!(repeat_str("ab", 3), "ababab");
    assert_eq!(repeat_str("x", 0), "");
    assert_eq!(u64_to_decimal(0), "0");
    assert_eq!(u64_to_decimal(1234), "1234");
    assert_eq!(u64_to_decimal(u64::MAX), "18446744073709551615");
    assert_eq!(zero_padded_decimal(7, 3), "007");
    assert_eq!(zero_padded_decimal(1234, 2), "1234");
    assert_eq!(split_lines("a\nb\r\nc\n"), vec!["a", "b", "c"]);
    assert_eq!(split_lines(""), Vec::<String>::new());
    assert_eq!(split_lines("\n\n"), vec!["", ""]);
}

#[test]
fn age_labels_bucket_by_duration() {
    assert_eq!(age_label(100, 90).as_deref(), Some("just now"));
    assert_eq!(age_label(0, 50).as_deref(), Some("just now"));
    assert_eq!(age_label(60, 0).as_deref(), Some("1m ago"));
    assert_eq!(age_label(59 * 60, 0).as_deref(), Some("59m ago"));
    assert_eq!(age_label(3 * 3600, 0).as_deref(), Some("3h ago"));
    assert_eq!(age_label(6 * 86400, 0).as_deref(), Some("6d ago"));
    assert_eq!(age_label(7 * 86400, 0), None);
}
