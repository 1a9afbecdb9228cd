use reedit::editor::Editor;

fn chars(s: &str) -> Vec<char> {
    s.chars().collect()
}

fn doc(lines: &[&str]) -> Vec<Vec<char>> {
    lines.iter().map(|s| s.chars().collect()).collect()
}

fn doc_strings(ed: &Editor) -> Vec<String> {
    ed.content.iter().map(|l| l.iter().collect()).collect()
}

fn editor_with(lines: &[&str], l: usize, c: usize) -> Editor {
    let mut ed = Editor::new(chars("."), Some(doc(lines)), Vec::new(), Vec::new());
    ed.cursor_l = l;
    ed.cursor_c = c;
    ed
}

#[test]
fn insert_char_advances_cursor() {
    let mut ed = editor_with(&[""], 0, 0);
    ed.insert_char('a');
    assert_eq!(doc_strings(&ed), vec!["a".to_string()]);
    assert_eq!((ed.cursor_l, ed.cursor_c), (0, 1));
}

#[test]
fn insert_char_middle_of_line() {
    let mut ed = editor_with(&["ac"], 0, 1);
    ed.insert_char('b');
    assert_eq!(doc_strings(&ed), vec!["abc".to_string()]);
    assert_eq!((ed.cursor_l, ed.cursor_c), (0, 2));
}

#[test]
fn auto_close_paren_in_empty_buffer() {
    let mut ed = editor_with(&[""], 0, 0);
    ed.auto_close('(');
    assert_eq!(doc_strings(&ed), vec!["()".to_string()]);
    assert_eq!((ed.cursor_l, ed.cursor_c), (0, 1));
}

#[test]
fn auto_close_quote() {
    let mut ed = editor_with(&["x"], 0, 1);
    ed.auto_close('"');
    assert_eq!(doc_strings(&ed), vec!["x\"\"".to_string()]);
    assert_eq!((ed.cursor_l, ed.cursor_c), (0, 2));
}

#[test]
fn auto_close_ignores_other_characters() {
    let mut ed = editor_with(&["x"], 0, 1);
    ed.auto_close('a');
    assert_eq!(doc_strings(&ed), vec!["x".to_string()]);
    assert_eq!((ed.cursor_l, ed.cursor_c), (0, 1));
}

#[test]
fn tab_inserts_four_spaces() {
    let mut ed = editor_with(&["ab"], 0, 1);
    ed.handle_tab();
    assert_eq!(doc_strings(&ed), vec!["a    b".to_string()]);
    assert_eq!((ed.cursor_l, ed.cursor_c), (0, 5));
}

#[test]
fn split_line_at_end_makes_empty_line() {
    let mut ed = editor_with(&["abc"], 0, 3);
    ed.split_line();
    assert_eq!(doc_strings(&ed), vec!["abc".to_string(), "".to_string()]);
    assert_eq!((ed.cursor_l, ed.cursor_c), (1, 0));
}

#[test]
fn split_line_in_middle() {
    let mut ed = editor_with(&["abcd"], 0, 2);
    ed.split_line();
    assert_eq!(doc_strings(&ed), vec!["ab".to_string(), "cd".to_string()]);
    assert_eq!((ed.cursor_l, ed.cursor_c), (1, 0));
}

#[test]
fn enter_without_indent_behaves_like_split() {
    let mut ed = editor_with(&["abc"], 0, 3);
    ed.handle_enter();
    assert_eq!(doc_strings(&ed), vec!["abc".to_string(), "".to_string()]);
    assert_eq!((ed.cursor_l, ed.cursor_c), (1, 0));
}

#[test]
fn enter_copies_leading_whitespace() {
    let mut ed = editor_with(&["    foo"], 0, 7);
    ed.handle_enter();
    assert_eq!(doc_strings(&ed), vec!["    foo".to_string(), "    ".to_string()]);
    assert_eq!((ed.cursor_l, ed.cursor_c), (1, 4));
}

#[test]
fn enter_between_bracket_pair_opens_indented_line() {
    let mut ed = editor_with(&["f()"], 0, 2);
    ed.handle_enter();
    assert_eq!(
        doc_strings(&ed),
        vec!["f(".to_string(), "    ".to_string(), ")".to_string()]
    );
    assert_eq!((ed.cursor_l, ed.cursor_c), (1, 4));
}

#[test]
fn enter_between_braces_keeps_outer_indent() {
    let mut ed = editor_with(&["  {}"], 0, 3);
    ed.handle_enter();
    assert_eq!(
        doc_strings(&ed),
        vec!["  {".to_string(), "      ".to_string(), "  }".to_string()]
    );
    assert_eq!((ed.cursor_l, ed.cursor_c), (1, 6));
}

#[test]
fn backspace_removes_previous_character() {
    let mut ed = editor_with(&["ab"], 0, 2);
    ed.handle_backspace();
    assert_eq!(doc_strings(&ed), vec!["a".to_string()]);
    assert_eq!((ed.cursor_l, ed.cursor_c), (0, 1));
}

#[test]
fn backspace_at_line_start_merges_lines() {
    let mut ed = editor_with(&["ab", "cd"], 1, 0);
    ed.handle_backspace();
    assert_eq!(doc_strings(&ed), vec!["abcd".to_string()]);
    assert_eq!((ed.cursor_l, ed.cursor_c), (0, 2));
}

#[test]
fn backspace_at_document_start_is_noop() {
    let mut ed = editor_with(&["ab"], 0, 0);
    ed.handle_backspace();
    assert_eq!(doc_strings(&ed), vec!["ab".to_string()]);
    assert_eq!((ed.cursor_l, ed.cursor_c), (0, 0));
}

#[test]
fn split_then_backspace_restores_line() {
    let mut ed = editor_with(&["hello"], 0, 3);
    ed.split_line();
    ed.handle_backspace();
    assert_eq!(doc_strings(&ed), vec!["hello".to_string()]);
    assert_eq!((ed.cursor_l, ed.cursor_c), (0, 3));
}

#[test]
fn inserts_then_equal_backspaces_restore_document() {
    let mut ed = editor_with(&["ab"], 0, 1);
    ed.insert_char('x');
    ed.insert_char('y');
    ed.insert_char('z');
    ed.handle_backspace();
    ed.handle_backspace();
    ed.handle_backspace();
    assert_eq!(doc_strings(&ed), vec!["ab".to_string()]);
    assert_eq!((ed.cursor_l, ed.cursor_c), (0, 1));
}

#[test]
fn delete_removes_character_at_cursor() {
    let mut ed = editor_with(&["abc"], 0, 1);
    ed.handle_delete();
    assert_eq!(doc_strings(&ed), vec!["ac".to_string()]);
    assert_eq!((ed.cursor_l, ed.cursor_c), (0, 1));
}

#[test]
fn delete_at_line_end_merges_next_line() {
    let mut ed = editor_with(&["ab", "cd"], 0, 2);
    ed.handle_delete();
    assert_eq!(doc_strings(&ed), vec!["abcd".to_string()]);
    assert_eq!((ed.cursor_l, ed.cursor_c), (0, 2));
}

#[test]
fn delete_at_document_end_is_noop() {
    let mut ed = editor_with(&["ab"], 0, 2);
    ed.handle_delete();
    assert_eq!(doc_strings(&ed), vec!["ab".to_string()]);
}

#[test]
fn move_left_wraps_to_previous_line_end() {
    let mut ed = editor_with(&["abc", "d"], 1, 0);
    ed.move_left();
    assert_eq!((ed.cursor_l, ed.cursor_c), (0, 3));
}

#[test]
fn move_left_at_origin_is_noop() {
    let mut ed = editor_with(&["abc"], 0, 0);
    ed.move_left();
    assert_eq!((ed.cursor_l, ed.cursor_c), (0, 0));
}

#[test]
fn move_right_wraps_to_next_line_start() {
    let mut ed = editor_with(&["abc", "d"], 0, 3);
    ed.move_right();
    assert_eq!((ed.cursor_l, ed.cursor_c), (1, 0));
}

#[test]
fn move_right_at_document_end_is_noop() {
    let mut ed = editor_with(&["abc"], 0, 3);
    ed.move_right();
    assert_eq!((ed.cursor_l, ed.cursor_c), (0, 3));
}

#[test]
fn move_down_clamps_column_to_destination_length() {
    let mut ed = editor_with(&["abcdef", "ab"], 0, 5);
    ed.move_down();
    assert_eq!((ed.cursor_l, ed.cursor_c), (1, 2));
    assert!(ed.cursor_c <= ed.content[ed.cursor_l].len());
}

#[test]
fn move_up_clamps_column_to_destination_length() {
    let mut ed = editor_with(&["ab", "abcdef"], 1, 5);
    ed.move_up();
    assert_eq!((ed.cursor_l, ed.cursor_c), (0, 2));
    assert!(ed.cursor_c <= ed.content[ed.cursor_l].len());
}

#[test]
fn move_up_keeps_short_column() {
    let mut ed = editor_with(&["abcdef", "abc"], 1, 1);
    ed.move_up();
    assert_eq!((ed.cursor_l, ed.cursor_c), (0, 1));
}

#[test]
fn adjust_scroll_follows_cursor_up() {
    let mut ed = editor_with(&["a", "b", "c", "d"], 1, 0);
    ed.scroll_offset = 3;
    ed.adjust_scroll(2);
    assert_eq!(ed.scroll_offset, 1);
}

#[test]
fn adjust_scroll_follows_cursor_down() {
    let mut ed = editor_with(&["a", "b", "c", "d"], 3, 0);
    ed.scroll_offset = 0;
    ed.adjust_scroll(2);
    assert_eq!(ed.scroll_offset, 2);
}

#[test]
fn adjust_scroll_keeps_visible_cursor() {
    let mut ed = editor_with(&["a", "b", "c", "d"], 1, 0);
    ed.scroll_offset = 1;
    ed.adjust_scroll(2);
    assert_eq!(ed.scroll_offset, 1);
}

#[test]
fn adjust_sidebar_scroll_follows_selection() {
    let mut ed = Editor::new(
        chars("."),
        None,
        Vec::new(),
        doc(&["a", "b", "c", "d", "e"]),
    );
    ed.file_cursor = 4;
    ed.adjust_sidebar_scroll(2);
    assert_eq!(ed.sidebar_scroll, 3);
    ed.file_cursor = 0;
    ed.adjust_sidebar_scroll(2);
    assert_eq!(ed.sidebar_scroll, 0);
}
