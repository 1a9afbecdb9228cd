use reedit::display::{file_icon, folder_icon, truncate_string};
use reedit::order::sort_entries;
use reedit::text::{join_text, split_text, trim_tail};

fn chars(s: &str) -> Vec<char> {
    s.chars().collect()
}

fn doc(lines: &[&str]) -> Vec<Vec<char>> {
    lines.iter().map(|s| s.chars().collect()).collect()
}

fn string_of(v: &[char]) -> String {
    v.iter().collect()
}

fn strings(v: &[Vec<char>]) -> Vec<String> {
    v.iter().map(|l| l.iter().collect()).collect()
}

#[test]
fn join_separates_lines_with_newlines() {
    assert_eq!(string_of(&join_text(&doc(&["a", "", "b"]))), "a\n\nb");
    assert_eq!(string_of(&join_text(&doc(&["only"]))), "only");
    assert_eq!(string_of(&join_text(&doc(&[""]))), "");
}

#[test]
fn split_drops_segment_after_trailing_newline() {
    assert_eq!(strings(&split_text(&chars("a\nb"))), vec!["a", "b"]);
    assert_eq!(strings(&split_text(&chars("a\n"))), vec!["a"]);
    assert_eq!(strings(&split_text(&chars("a\n\nb"))), vec!["a", "", "b"]);
    assert!(split_text(&chars("")).is_empty());
    assert_eq!(strings(&split_text(&chars("\n"))), vec![""]);
}

#[test]
fn split_inverts_join_for_ordinary_documents() {
    let d = doc(&["fn main() {", "    body", "}"]);
    assert_eq!(strings(&split_text(&join_text(&d))), strings(&d));
}

#[test]
fn trim_strips_surrounding_whitespace_after_offset() {
    assert_eq!(string_of(&trim_tail(&chars(":e  x y "), 2)), "x y");
    assert_eq!(string_of(&trim_tail(&chars(":w file"), 2)), "file");
    assert_eq!(string_of(&trim_tail(&chars(":e    "), 2)), "");
}

#[test]
fn truncate_keeps_short_names() {
    assert_eq!(string_of(&truncate_string(&chars("short"), 10)), "short");
    assert_eq!(string_of(&truncate_string(&chars("short"), 5)), "short");
}

#[test]
fn truncate_marks_cut_names() {
    assert_eq!(string_of(&truncate_string(&chars("longname"), 5)), "long\u{2026}");
    assert_eq!(string_of(&truncate_string(&chars("ab"), 1)), "\u{2026}");
    assert_eq!(string_of(&truncate_string(&chars("ab"), 0)), "\u{2026}");
}

#[test]
fn file_icons_match_suffixes() {
    assert_eq!(file_icon(&chars("main.rs")), "\u{1F980}");
    assert_eq!(file_icon(&chars("a.py")), "\u{1F40D}");
    assert_eq!(file_icon(&chars("conf.toml")), "\u{2699}\u{FE0F}");
    assert_eq!(file_icon(&chars("notes.md")), "\u{E609}");
    assert_eq!(file_icon(&chars("mystery.bin")), "\u{1F4C4}");
}

#[test]
fn folder_icons_match_known_names() {
    assert_eq!(folder_icon(&chars("Downloads")), "\u{1F4E5}");
    assert_eq!(folder_icon(&chars("Música")), "\u{1F3B5}");
    assert_eq!(folder_icon(&chars(".git")), "\u{1F5C3}\u{FE0F}");
    assert_eq!(folder_icon(&chars("misc")), "\u{1F4C1}");
}

#[test]
fn sort_entries_orders_names() {
    let sorted = sort_entries(doc(&["sub", "a.txt", "README"]));
    assert_eq!(strings(&sorted), vec!["README", "a.txt", "sub"]);
}

#[test]
fn sort_entries_prefix_comes_first() {
    let sorted = sort_entries(doc(&["ab", "a", "abc"]));
    assert_eq!(strings(&sorted), vec!["a", "ab", "abc"]);
}

#[test]
fn sort_entries_keeps_duplicates() {
    let sorted = sort_entries(doc(&["b", "a", "b"]));
    assert_eq!(strings(&sorted), vec!["a", "b", "b"]);
}

#[test]
fn sort_entries_empty_list() {
    assert!(sort_entries(Vec::new()).is_empty());
}
