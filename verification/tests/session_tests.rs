use reedit::command::Action;
use reedit::dispatch::Key;
use reedit::editor::{Editor, Mode, Status};

fn chars(s: &str) -> Vec<char> {
    s.chars().collect()
}

fn doc(lines: &[&str]) -> Vec<Vec<char>> {
    lines.iter().map(|s| s.chars().collect()).collect()
}

fn string_of(v: &[char]) -> String {
    v.iter().collect()
}

fn doc_strings(ed: &Editor) -> Vec<String> {
    ed.content.iter().map(|l| l.iter().collect()).collect()
}

fn editor_with(lines: &[&str], l: usize, c: usize) -> Editor {
    let mut ed = Editor::new(chars("."), Some(doc(lines)), Vec::new(), Vec::new());
    ed.cursor_l = l;
    ed.cursor_c = c;
    ed
}

#[test]
fn new_session_defaults() {
    let ed = Editor::new(chars("."), None, doc(&["home"]), doc(&["a.txt"]));
    assert_eq!(doc_strings(&ed), vec!["".to_string()]);
    assert_eq!((ed.cursor_l, ed.cursor_c), (0, 0));
    assert_eq!(ed.mode, Mode::Command);
    assert_eq!(ed.status_message, Status::Empty);
    assert!(ed.command.is_empty());
    assert_eq!(ed.file_cursor, 0);
    assert!(ed.clipboard.is_none());
    assert!(ed.visual_start.is_none());
}

#[test]
fn new_session_normalizes_empty_file() {
    let ed = Editor::new(chars("x"), Some(Vec::new()), Vec::new(), Vec::new());
    assert_eq!(doc_strings(&ed), vec!["".to_string()]);
}

#[test]
fn copy_without_selection_changes_nothing() {
    let mut ed = editor_with(&["aa", "bb"], 1, 1);
    ed.copy_selection();
    assert!(ed.clipboard.is_none());
    assert_eq!(ed.mode, Mode::Command);
    assert_eq!(ed.status_message, Status::Empty);
    assert_eq!(doc_strings(&ed), vec!["aa".to_string(), "bb".to_string()]);
}

#[test]
fn start_selection_anchors_cursor_line() {
    let mut ed = editor_with(&["aa", "bb"], 1, 0);
    ed.start_selection();
    assert_eq!(ed.visual_start, Some(1));
    assert_eq!(ed.mode, Mode::Visual);
}

#[test]
fn copy_selection_joins_selected_lines() {
    let mut ed = editor_with(&["aa", "bb", "cc"], 2, 0);
    ed.mode = Mode::Visual;
    ed.visual_start = Some(0);
    ed.copy_selection();
    assert_eq!(string_of(ed.clipboard.as_ref().unwrap()), "aa\nbb\ncc");
    assert_eq!(ed.mode, Mode::Command);
    assert!(ed.visual_start.is_none());
    assert_eq!(ed.status_message, Status::Copied);
}

#[test]
fn copy_selection_with_anchor_below_cursor() {
    let mut ed = editor_with(&["aa", "bb", "cc"], 0, 0);
    ed.mode = Mode::Visual;
    ed.visual_start = Some(2);
    ed.copy_selection();
    assert_eq!(string_of(ed.clipboard.as_ref().unwrap()), "aa\nbb\ncc");
}

#[test]
fn paste_inserts_lines_after_cursor_line() {
    let mut ed = editor_with(&["aa", "bb"], 0, 1);
    ed.clipboard = Some(chars("xx\nyy"));
    ed.paste_lines();
    assert_eq!(
        doc_strings(&ed),
        vec!["aa".to_string(), "xx".to_string(), "yy".to_string(), "bb".to_string()]
    );
    assert_eq!((ed.cursor_l, ed.cursor_c), (0, 1));
    assert_eq!(ed.status_message, Status::Pasted);
}

#[test]
fn paste_does_not_consume_clipboard() {
    let mut ed = editor_with(&["aa"], 0, 0);
    ed.clipboard = Some(chars("x"));
    ed.paste_lines();
    ed.paste_lines();
    assert_eq!(
        doc_strings(&ed),
        vec!["aa".to_string(), "x".to_string(), "x".to_string()]
    );
    assert_eq!(string_of(ed.clipboard.as_ref().unwrap()), "x");
}

#[test]
fn paste_with_empty_clipboard_slot_is_noop() {
    let mut ed = editor_with(&["aa"], 0, 0);
    ed.paste_lines();
    assert_eq!(doc_strings(&ed), vec!["aa".to_string()]);
    assert_eq!(ed.status_message, Status::Empty);
}

#[test]
fn copy_then_paste_duplicates_selection() {
    let mut ed = editor_with(&["one", "two"], 0, 0);
    ed.start_selection();
    ed.move_down();
    ed.copy_selection();
    ed.paste_lines();
    assert_eq!(
        doc_strings(&ed),
        vec!["one".to_string(), "two".to_string(), "one".to_string(), "two".to_string()]
    );
}

#[test]
fn selection_range_orders_endpoints() {
    let mut ed = editor_with(&["a", "b", "c"], 2, 0);
    ed.mode = Mode::Visual;
    ed.visual_start = Some(0);
    assert_eq!(ed.selection_range(), (0, 2));
    ed.cursor_l = 0;
    ed.visual_start = Some(2);
    assert_eq!(ed.selection_range(), (0, 2));
    ed.mode = Mode::Command;
    assert_eq!(ed.selection_range(), (0, 0));
}

#[test]
fn save_without_bound_path_reports_usage() {
    let mut ed = editor_with(&["abc"], 0, 0);
    let act = ed.save();
    assert!(matches!(act, Action::Stay));
    assert_eq!(ed.status_message, Status::UsageSave);
    assert_eq!(doc_strings(&ed), vec!["abc".to_string()]);
}

#[test]
fn save_with_bound_path_hands_out_write() {
    let mut ed = Editor::new(chars("f.txt"), Some(doc(&["a", "b"])), Vec::new(), Vec::new());
    let act = ed.save();
    match act {
        Action::Write { path, data } => {
            assert_eq!(string_of(&path), "f.txt");
            assert_eq!(string_of(&data), "a\nb");
        },
        _ => panic!("expected a write action"),
    }
    assert_eq!(ed.status_message, Status::Empty);
}

#[test]
fn save_as_hands_out_write_to_new_path() {
    let ed = Editor::new(chars("."), Some(doc(&["x"])), Vec::new(), Vec::new());
    let act = ed.save_as(chars("o.txt"));
    match act {
        Action::WriteAs { path, data } => {
            assert_eq!(string_of(&path), "o.txt");
            assert_eq!(string_of(&data), "x");
        },
        _ => panic!("expected a write-as action"),
    }
}

#[test]
fn serialize_joins_lines_without_trailing_newline() {
    let ed = Editor::new(chars("."), Some(doc(&["a", "", "b"])), Vec::new(), Vec::new());
    assert_eq!(string_of(&ed.serialize()), "a\n\nb");
    let empty = Editor::new(chars("."), None, Vec::new(), Vec::new());
    assert_eq!(string_of(&empty.serialize()), "");
}

#[test]
fn write_results_update_status() {
    let mut ed = editor_with(&["a"], 0, 0);
    ed.write_ok();
    assert_eq!(ed.status_message, Status::Saved);
    ed.write_failed();
    assert_eq!(ed.status_message, Status::IoError);
    ed.adopt_path(chars("new.txt"));
    assert_eq!(string_of(&ed.file_path), "new.txt");
    assert_eq!(ed.status_message, Status::SavedAs);
}

#[test]
fn commit_edit_command_trims_path_argument() {
    let mut ed = editor_with(&["a"], 0, 0);
    ed.command = chars(":e  notes.txt ");
    let act = ed.commit_command();
    match act {
        Action::OpenPath { path } => assert_eq!(string_of(&path), "notes.txt"),
        _ => panic!("expected an open action"),
    }
    assert!(ed.command.is_empty());
}

#[test]
fn commit_write_as_carries_document() {
    let mut ed = Editor::new(chars("."), Some(doc(&["a", "b"])), Vec::new(), Vec::new());
    ed.command = chars(":w out.txt");
    let act = ed.commit_command();
    match act {
        Action::WriteAs { path, data } => {
            assert_eq!(string_of(&path), "out.txt");
            assert_eq!(string_of(&data), "a\nb");
        },
        _ => panic!("expected a write-as action"),
    }
    assert!(ed.command.is_empty());
}

#[test]
fn commit_write_unbound_leaves_file_system_alone() {
    let mut ed = editor_with(&["abc"], 0, 0);
    ed.command = chars(":w");
    let act = ed.commit_command();
    assert!(matches!(act, Action::Stay));
    assert_eq!(ed.status_message, Status::UsageSave);
    assert!(ed.command.is_empty());
}

#[test]
fn commit_quit() {
    let mut ed = editor_with(&["a"], 0, 0);
    ed.command = chars(":q");
    assert!(matches!(ed.commit_command(), Action::Quit));
    assert!(ed.command.is_empty());
}

#[test]
fn commit_write_quit_bound() {
    let mut ed = Editor::new(chars("f"), Some(doc(&["x"])), Vec::new(), Vec::new());
    ed.command = chars(":wq");
    match ed.commit_command() {
        Action::WriteQuit { path, data } => {
            assert_eq!(string_of(&path), "f");
            assert_eq!(string_of(&data), "x");
        },
        _ => panic!("expected a write-quit action"),
    }
}

#[test]
fn commit_write_quit_unbound_quits_with_usage() {
    let mut ed = editor_with(&["x"], 0, 0);
    ed.command = chars(":wq");
    assert!(matches!(ed.commit_command(), Action::Quit));
    assert_eq!(ed.status_message, Status::UsageSave);
}

#[test]
fn commit_unknown_command_sets_status() {
    let mut ed = editor_with(&["a"], 0, 0);
    ed.command = chars(":x");
    assert!(matches!(ed.commit_command(), Action::Stay));
    assert_eq!(ed.status_message, Status::UnknownCommand);
    assert!(ed.command.is_empty());
}

#[test]
fn commit_empty_command_is_unknown() {
    let mut ed = editor_with(&["a"], 0, 0);
    assert!(matches!(ed.commit_command(), Action::Stay));
    assert_eq!(ed.status_message, Status::UnknownCommand);
}

#[test]
fn open_file_from_command_loads_lines() {
    let mut ed = editor_with(&["old"], 0, 3);
    ed.scroll_offset = 7;
    ed.open_file_from_command(chars("/tmp/f"), Some(doc(&["n1", "n2"])));
    assert_eq!(doc_strings(&ed), vec!["n1".to_string(), "n2".to_string()]);
    assert_eq!((ed.cursor_l, ed.cursor_c), (0, 0));
    assert_eq!(ed.scroll_offset, 0);
    assert_eq!(string_of(&ed.file_path), "/tmp/f");
    assert_eq!(ed.mode, Mode::Insert);
    assert_eq!(ed.status_message, Status::OpenedFile);
}

#[test]
fn open_file_from_command_missing_path_makes_new_document() {
    let mut ed = editor_with(&["old"], 0, 1);
    ed.open_file_from_command(chars("/tmp/new"), None);
    assert_eq!(doc_strings(&ed), vec!["".to_string()]);
    assert_eq!(ed.status_message, Status::NewFile);
    assert_eq!(ed.mode, Mode::Insert);
}

#[test]
fn open_entry_file_enters_insert_mode() {
    let mut ed = Editor::new(chars("."), None, doc(&["home"]), doc(&["a.txt"]));
    ed.open_entry_file(chars("/home/a.txt"), doc(&["hi"]));
    assert_eq!(doc_strings(&ed), vec!["hi".to_string()]);
    assert_eq!(ed.mode, Mode::Insert);
    assert_eq!(ed.status_message, Status::OpenedFile);
    assert_eq!((ed.cursor_l, ed.cursor_c), (0, 0));
}

#[test]
fn enter_directory_descends_and_resets_selection() {
    let mut ed = Editor::new(chars("."), None, doc(&["home"]), doc(&["a", "sub"]));
    ed.file_cursor = 1;
    ed.enter_directory(chars("sub"), doc(&["inner.txt"]));
    let dir: Vec<String> = ed.current_dir.iter().map(|c| c.iter().collect()).collect();
    assert_eq!(dir, vec!["home".to_string(), "sub".to_string()]);
    assert_eq!(ed.file_cursor, 0);
    assert_eq!(ed.status_message, Status::EnteredDirectory);
    let files: Vec<String> = ed.files.iter().map(|c| c.iter().collect()).collect();
    assert_eq!(files, vec!["inner.txt".to_string()]);
}

#[test]
fn go_up_at_root_is_noop() {
    let mut ed = Editor::new(chars("."), None, Vec::new(), doc(&["a.txt", "sub"]));
    ed.file_cursor = 0;
    let changed = ed.go_back();
    assert!(!changed);
    assert!(ed.current_dir.is_empty());
    let files: Vec<String> = ed.files.iter().map(|c| c.iter().collect()).collect();
    assert_eq!(files, vec!["a.txt".to_string(), "sub".to_string()]);
    assert_eq!(ed.file_cursor, 0);
    assert_eq!(ed.status_message, Status::Empty);
}

#[test]
fn go_back_pops_directory_component() {
    let mut ed = Editor::new(chars("."), None, doc(&["home", "user"]), doc(&["x"]));
    let changed = ed.go_back();
    assert!(changed);
    let dir: Vec<String> = ed.current_dir.iter().map(|c| c.iter().collect()).collect();
    assert_eq!(dir, vec!["home".to_string()]);
    assert_eq!(ed.file_cursor, 0);
    assert_eq!(ed.status_message, Status::ChangedDirectory);
}

#[test]
fn refresh_sidebar_clamps_selection() {
    let mut ed = Editor::new(chars("."), None, Vec::new(), doc(&["a", "b", "c"]));
    ed.file_cursor = 2;
    ed.refresh_sidebar(doc(&["x", "y"]));
    assert_eq!(ed.file_cursor, 1);
    ed.refresh_sidebar(Vec::new());
    assert_eq!(ed.file_cursor, 0);
}

#[test]
fn open_selected_names_current_entry() {
    let mut ed = Editor::new(chars("."), None, Vec::new(), doc(&["a.txt", "sub"]));
    ed.file_cursor = 1;
    assert_eq!(string_of(&ed.open_selected().unwrap()), "sub");
    let empty = Editor::new(chars("."), None, Vec::new(), Vec::new());
    assert!(empty.open_selected().is_none());
}

#[test]
fn browser_selection_stays_in_bounds() {
    let mut ed = Editor::new(chars("."), None, Vec::new(), doc(&["a", "b"]));
    ed.move_up_files();
    assert_eq!(ed.file_cursor, 0);
    ed.move_down_files();
    assert_eq!(ed.file_cursor, 1);
    ed.move_down_files();
    assert_eq!(ed.file_cursor, 1);
    ed.move_up_files();
    assert_eq!(ed.file_cursor, 0);
}

#[test]
fn esc_returns_to_command_mode() {
    let mut ed = editor_with(&["a"], 0, 0);
    ed.mode = Mode::Insert;
    assert!(matches!(ed.handle_key(Key::Esc), Action::Stay));
    assert_eq!(ed.mode, Mode::Command);
}

#[test]
fn i_on_empty_command_line_enters_insert() {
    let mut ed = editor_with(&["a"], 0, 0);
    assert!(matches!(ed.handle_key(Key::Char('i')), Action::Stay));
    assert_eq!(ed.mode, Mode::Insert);
}

#[test]
fn i_with_pending_command_is_text() {
    let mut ed = editor_with(&["a"], 0, 0);
    ed.command = chars(":");
    ed.handle_key(Key::Char('i'));
    assert_eq!(ed.mode, Mode::Command);
    assert_eq!(string_of(&ed.command), ":i");
}

#[test]
fn characters_build_the_command_line() {
    let mut ed = editor_with(&["a"], 0, 0);
    ed.handle_key(Key::Char(':'));
    ed.handle_key(Key::Char('w'));
    assert_eq!(string_of(&ed.command), ":w");
}

#[test]
fn backspace_edits_the_command_line() {
    let mut ed = editor_with(&["a"], 0, 0);
    ed.command = chars(":wq");
    ed.handle_key(Key::Backspace);
    assert_eq!(string_of(&ed.command), ":w");
    assert_eq!(doc_strings(&ed), vec!["a".to_string()]);
}

#[test]
fn enter_in_command_mode_commits() {
    let mut ed = editor_with(&["a"], 0, 0);
    ed.command = chars(":q");
    assert!(matches!(ed.handle_key(Key::Enter), Action::Quit));
    assert!(ed.command.is_empty());
}

#[test]
fn insert_mode_characters_edit_the_buffer() {
    let mut ed = editor_with(&[""], 0, 0);
    ed.mode = Mode::Insert;
    ed.handle_key(Key::Char('h'));
    ed.handle_key(Key::Char('i'));
    assert_eq!(doc_strings(&ed), vec!["hi".to_string()]);
}

#[test]
fn insert_mode_bracket_auto_closes() {
    let mut ed = editor_with(&[""], 0, 0);
    ed.mode = Mode::Insert;
    ed.handle_key(Key::Char('('));
    assert_eq!(doc_strings(&ed), vec!["()".to_string()]);
    assert_eq!((ed.cursor_l, ed.cursor_c), (0, 1));
}

#[test]
fn command_mode_arrows_drive_browser() {
    let mut ed = Editor::new(chars("."), None, doc(&["home"]), doc(&["a.txt", "sub"]));
    ed.handle_key(Key::Down);
    assert_eq!(ed.file_cursor, 1);
    ed.handle_key(Key::Up);
    assert_eq!(ed.file_cursor, 0);
    match ed.handle_key(Key::Right) {
        Action::OpenEntry { name } => assert_eq!(string_of(&name), "a.txt"),
        _ => panic!("expected an open-entry action"),
    }
    assert!(matches!(ed.handle_key(Key::Left), Action::ListDir));
    assert!(ed.current_dir.is_empty());
    assert!(matches!(ed.handle_key(Key::Left), Action::Stay));
}

#[test]
fn insert_mode_arrows_move_cursor() {
    let mut ed = editor_with(&["ab", "c"], 0, 0);
    ed.mode = Mode::Insert;
    ed.handle_key(Key::Right);
    assert_eq!((ed.cursor_l, ed.cursor_c), (0, 1));
    ed.handle_key(Key::Down);
    assert_eq!((ed.cursor_l, ed.cursor_c), (1, 1));
    ed.handle_key(Key::Up);
    assert_eq!((ed.cursor_l, ed.cursor_c), (0, 1));
    ed.handle_key(Key::Left);
    assert_eq!((ed.cursor_l, ed.cursor_c), (0, 0));
}

#[test]
fn delete_and_tab_edit_in_every_mode() {
    let mut ed = editor_with(&["ab"], 0, 0);
    ed.handle_key(Key::Delete);
    assert_eq!(doc_strings(&ed), vec!["b".to_string()]);
    ed.handle_key(Key::Tab);
    assert_eq!(doc_strings(&ed), vec!["    b".to_string()]);
}

#[test]
fn visual_mode_ignores_plain_characters() {
    let mut ed = editor_with(&["ab"], 0, 0);
    ed.mode = Mode::Visual;
    assert!(matches!(ed.handle_key(Key::Char('x')), Action::Stay));
    assert_eq!(doc_strings(&ed), vec!["ab".to_string()]);
}

#[test]
fn unmapped_key_changes_nothing() {
    let mut ed = editor_with(&["ab"], 0, 1);
    assert!(matches!(ed.handle_key(Key::Other), Action::Stay));
    assert_eq!(doc_strings(&ed), vec!["ab".to_string()]);
    assert_eq!((ed.cursor_l, ed.cursor_c), (0, 1));
}
