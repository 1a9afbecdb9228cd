//! The editing session: document, cursor, mode, command line, selection,
//! clipboard, viewport offsets and directory-browser state, all in one
//! exclusively-owned value. The invariant [`Editor::wf`] ties the cursor to
//! the document bounds and the browser selection to the entry list; every
//! operation of the library preserves it.

use vstd::prelude::*;

use crate::text::doc_view;

verus! {

/// The interpretation context for input: which keys edit text, which build a
/// command, which navigate.
#[derive(Clone, Copy, Debug, PartialEq, Eq, Structural)]
pub enum Mode {
    Insert,
    Command,
    Visual,
}

/// What the status line reports after the latest operation. The library keeps
/// the category; rendering turns it into text.
#[derive(Clone, Copy, Debug, PartialEq, Eq, Structural)]
pub enum Status {
    /// Nothing to report.
    Empty,
    /// The document was written to its bound path.
    Saved,
    /// The document was written to a newly adopted path.
    SavedAs,
    /// `:w` was issued while no path is bound to the document.
    UsageSave,
    /// The selected lines were captured into the clipboard.
    Copied,
    /// The clipboard lines were inserted into the document.
    Pasted,
    /// An existing file was loaded into the document.
    OpenedFile,
    /// A not-yet-existing path was bound to a fresh empty document.
    NewFile,
    /// The browser descended into the selected directory.
    EnteredDirectory,
    /// The browser moved to the parent directory.
    ChangedDirectory,
    /// A read or write failed for a reason other than the file missing.
    IoError,
    /// The committed command line matched no known command.
    UnknownCommand,
}

/// The mathematical state of the text buffer: the document as a sequence of
/// lines and the cursor within it. Contracts of every editing operation are
/// stated as a function from one `BufView` to the next.
#[verifier::ext_equal]
pub ghost struct BufView {
    pub doc: Seq<Seq<char>>,
    pub line: nat,
    pub col: nat,
}

/// The document is never empty, the cursor line exists, and the cursor column
/// is at most the length of its line (equal meaning "after the last
/// character").
pub open spec fn wf_buf(b: BufView) -> bool {
    0 < b.doc.len() && b.line < b.doc.len() && b.col <= b.doc[b.line as int].len()
}

/// A modal text-editing session.
///
/// Lines, paths, entry names and the command line are all sequences of
/// characters; the current directory is the sequence of path components from
/// the file-system root, so that the root itself is the empty sequence.
pub struct Editor {
    /// The document: its lines in order. Never empty.
    pub content: Vec<Vec<char>>,
    /// Cursor line index; always less than `content.len()`.
    pub cursor_l: usize,
    /// Cursor column; at most the length of the cursor line.
    pub cursor_c: usize,
    /// The path the document is bound to; the single character `.` means no
    /// path is bound (a fresh, untitled document).
    pub file_path: Vec<char>,
    /// The active input mode.
    pub mode: Mode,
    /// What the status line reports.
    pub status_message: Status,
    /// The command line being accumulated while in `Command` mode.
    pub command: Vec<char>,
    /// Components of the browser's current directory, from the root down.
    pub current_dir: Vec<Vec<char>>,
    /// Entry names in the current directory, as listed.
    pub files: Vec<Vec<char>>,
    /// Index of the selected entry; `0` when the list is empty.
    pub file_cursor: usize,
    /// First visible document line.
    pub scroll_offset: usize,
    /// First visible browser entry.
    pub sidebar_scroll: usize,
    /// The single-slot clipboard: captured lines joined by `'\n'`.
    pub clipboard: Option<Vec<char>>,
    /// The fixed line anchor of an in-progress selection.
    pub visual_start: Option<usize>,
}

impl Editor {
    /// The document as a sequence of character sequences.
    pub open spec fn doc(self) -> Seq<Seq<char>> {
        doc_view(self.content@)
    }

    /// The buffer-and-cursor part of the state.
    pub open spec fn buf(self) -> BufView {
        BufView { doc: self.doc(), line: self.cursor_l as nat, col: self.cursor_c as nat }
    }

    /// The session invariant: the buffer is well formed and the browser
    /// selection stays inside the entry list.
    pub open spec fn wf(self) -> bool {
        &&& wf_buf(self.buf())
        &&& self.files@.len() == 0 ==> self.file_cursor == 0
        &&& self.files@.len() > 0 ==> self.file_cursor < self.files@.len()
    }
}

/// Both sessions hold the same browser state.
pub open spec fn same_browser(a: Editor, b: Editor) -> bool {
    &&& a.current_dir == b.current_dir
    &&& a.files == b.files
    &&& a.file_cursor == b.file_cursor
}

/// Both sessions hold the same viewport offsets.
pub open spec fn same_scroll(a: Editor, b: Editor) -> bool {
    &&& a.scroll_offset == b.scroll_offset
    &&& a.sidebar_scroll == b.sidebar_scroll
}

/// Both sessions hold the same clipboard and selection anchor.
pub open spec fn same_clipboard(a: Editor, b: Editor) -> bool {
    &&& a.clipboard == b.clipboard
    &&& a.visual_start == b.visual_start
}

/// Both sessions hold the same bound path, mode, status and command line.
pub open spec fn same_meta(a: Editor, b: Editor) -> bool {
    &&& a.file_path == b.file_path
    &&& a.mode == b.mode
    &&& a.status_message == b.status_message
    &&& a.command == b.command
}

/// Both sessions hold the same buffer and cursor.
pub open spec fn same_buf(a: Editor, b: Editor) -> bool {
    &&& a.content == b.content
    &&& a.cursor_l == b.cursor_l
    &&& a.cursor_c == b.cursor_c
}

/// Everything outside the buffer and cursor is unchanged between `a` and `b`:
/// the frame of a pure editing operation.
pub open spec fn edit_frame(a: Editor, b: Editor) -> bool {
    &&& same_browser(a, b)
    &&& same_scroll(a, b)
    &&& same_clipboard(a, b)
    &&& same_meta(a, b)
}

/// The buffer went from `pre` to the stepped value `b`, and nothing else of
/// the session moved.
pub open spec fn buf_stepped(pre: Editor, post: Editor, b: BufView) -> bool {
    &&& post.buf() == b
    &&& edit_frame(pre, post)
}

/// Only the mode differs between `a` and `b`.
pub open spec fn only_mode_changed(a: Editor, b: Editor) -> bool {
    &&& a.file_path == b.file_path
    &&& a.status_message == b.status_message
    &&& a.command == b.command
    &&& same_buf(a, b)
    &&& same_browser(a, b)
    &&& same_scroll(a, b)
    &&& same_clipboard(a, b)
}

/// Only the command line differs between `a` and `b`.
pub open spec fn only_command_changed(a: Editor, b: Editor) -> bool {
    &&& a.file_path == b.file_path
    &&& a.mode == b.mode
    &&& a.status_message == b.status_message
    &&& same_buf(a, b)
    &&& same_browser(a, b)
    &&& same_scroll(a, b)
    &&& same_clipboard(a, b)
}

/// Only the browser selection index differs between `a` and `b`.
pub open spec fn only_selection_changed(a: Editor, b: Editor) -> bool {
    &&& a.current_dir == b.current_dir
    &&& a.files == b.files
    &&& same_buf(a, b)
    &&& same_scroll(a, b)
    &&& same_clipboard(a, b)
    &&& same_meta(a, b)
}

/// The document a freshly loaded buffer holds: the lines that were read, or
/// the single empty line when nothing was read or the file had no lines.
pub open spec fn loaded_doc(loaded: Option<Vec<Vec<char>>>) -> Seq<Seq<char>> {
    match loaded {
        Some(ls) => if ls@.len() > 0 {
            doc_view(ls@)
        } else {
            seq![Seq::<char>::empty()]
        },
        None => seq![Seq::<char>::empty()],
    }
}

/// A document that is never empty: the given lines, or one empty line.
pub fn normalize_lines(lines: Option<Vec<Vec<char>>>) -> (r: Vec<Vec<char>>)
    ensures
        doc_view(r@) == loaded_doc(lines),
        r@.len() > 0,
{
    match lines {
        Some(ls) => {
            if ls.len() > 0 {
                ls
            } else {
                single_empty_line()
            }
        },
        None => single_empty_line(),
    }
}

/// One empty line: the contents of a brand-new document.
fn single_empty_line() -> (r: Vec<Vec<char>>)
    ensures
        doc_view(r@) =~= seq![Seq::<char>::empty()],
        r@.len() == 1,
{
    let mut r: Vec<Vec<char>> = Vec::new();
    r.push(Vec::new());
    r
}

impl Editor {
    /// A fresh session over the lines read from `file_path` (`None` when the
    /// path is unbound or unreadable), browsing `current_dir` with entry list
    /// `files`. Starts in `Command` mode with the cursor at the origin.
    pub fn new(
        file_path: Vec<char>,
        loaded: Option<Vec<Vec<char>>>,
        current_dir: Vec<Vec<char>>,
        files: Vec<Vec<char>>,
    ) -> (ed: Editor)
        ensures
            ed.wf(),
            ed.doc() == loaded_doc(loaded),
            ed.cursor_l == 0 && ed.cursor_c == 0,
            ed.file_path == file_path,
            ed.mode == Mode::Command,
            ed.status_message == Status::Empty,
            ed.command@.len() == 0,
            ed.current_dir == current_dir,
            ed.files == files,
            ed.file_cursor == 0,
            ed.scroll_offset == 0 && ed.sidebar_scroll == 0,
            ed.clipboard is None,
            ed.visual_start is None,
    {
        let content = normalize_lines(loaded);
        Editor {
            content,
            cursor_l: 0,
            cursor_c: 0,
            file_path,
            mode: Mode::Command,
            status_message: Status::Empty,
            command: Vec::new(),
            current_dir,
            files,
            file_cursor: 0,
            scroll_offset: 0,
            sidebar_scroll: 0,
            clipboard: None,
            visual_start: None,
        }
    }
}

} // verus!
