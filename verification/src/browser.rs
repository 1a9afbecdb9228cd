//! The directory browser: which entry is selected, descending into a
//! directory, ascending to the parent, and installing a freshly listed entry
//! set. Reading the file system happens outside the library; these
//! operations receive what was read as arguments.

use vstd::prelude::*;

use crate::editor::{
    loaded_doc, same_buf, same_clipboard, same_meta, same_scroll, Editor, Mode, Status,
};
use crate::text::copy_chars;

verus! {

impl Editor {
    /// The name of the selected entry, or nothing when the list is empty.
    /// Whether the entry is a file or a directory only the file system
    /// knows; the answer comes back through [`Editor::open_entry_file`] or
    /// [`Editor::enter_directory`].
    pub fn open_selected(&self) -> (r: Option<Vec<char>>)
        requires
            self.wf(),
        ensures
            self.files@.len() == 0 ==> r is None,
            self.files@.len() > 0 ==> (r matches Some(name) && name@ == self.files@[self.file_cursor as int]@),
    {
        if self.files.len() == 0 {
            None
        } else {
            Some(copy_chars(&self.files[self.file_cursor]))
        }
    }

    /// Installs the lines read from the file behind the selected entry:
    /// the document is replaced, the cursor returns to the origin, the path
    /// is adopted and the session enters `Insert` mode. The scroll offset is
    /// left for the next viewport adjustment.
    pub fn open_entry_file(&mut self, path: Vec<char>, lines: Vec<Vec<char>>)
        requires
            old(self).wf(),
        ensures
            final(self).wf(),
            final(self).doc() == loaded_doc(Some(lines)),
            final(self).cursor_l == 0 && final(self).cursor_c == 0,
            final(self).file_path == path,
            final(self).mode == Mode::Insert,
            final(self).status_message == Status::OpenedFile,
            final(self).command == old(self).command,
            final(self).current_dir == old(self).current_dir,
            final(self).files == old(self).files,
            final(self).file_cursor == old(self).file_cursor,
            same_scroll(*old(self), *final(self)),
            same_clipboard(*old(self), *final(self)),
    {
        self.content = crate::editor::normalize_lines(Some(lines));
        self.file_path = path;
        self.cursor_l = 0;
        self.cursor_c = 0;
        self.status_message = Status::OpenedFile;
        self.mode = Mode::Insert;
    }

    /// Descends into the directory `name`: it joins the current path, the
    /// freshly listed `entries` replace the list and the selection returns to
    /// the top.
    pub fn enter_directory(&mut self, name: Vec<char>, entries: Vec<Vec<char>>)
        requires
            old(self).wf(),
        ensures
            final(self).wf(),
            final(self).current_dir@ == old(self).current_dir@.push(name),
            final(self).files == entries,
            final(self).file_cursor == 0,
            final(self).status_message == Status::EnteredDirectory,
            final(self).mode == old(self).mode,
            final(self).file_path == old(self).file_path,
            final(self).command == old(self).command,
            same_buf(*old(self), *final(self)),
            same_scroll(*old(self), *final(self)),
            same_clipboard(*old(self), *final(self)),
    {
        self.current_dir.push(name);
        self.files = entries;
        self.file_cursor = 0;
        self.status_message = Status::EnteredDirectory;
    }

    /// Ascends to the parent directory, resetting the selection; at the
    /// file-system root (no parent) nothing at all changes. Returns whether
    /// the directory changed, so the caller knows to list the new one.
    pub fn go_back(&mut self) -> (changed: bool)
        requires
            old(self).wf(),
        ensures
            final(self).wf(),
            old(self).current_dir@.len() == 0 ==> !changed && *final(self) == *old(self),
            old(self).current_dir@.len() > 0 ==> {
                &&& changed
                &&& final(self).current_dir@ == old(self).current_dir@.take(
                    old(self).current_dir@.len() - 1,
                )
                &&& final(self).files == old(self).files
                &&& final(self).file_cursor == 0
                &&& final(self).status_message == Status::ChangedDirectory
                &&& final(self).mode == old(self).mode
                &&& final(self).file_path == old(self).file_path
                &&& final(self).command == old(self).command
                &&& same_buf(*old(self), *final(self))
                &&& same_scroll(*old(self), *final(self))
                &&& same_clipboard(*old(self), *final(self))
            },
    {
        if self.current_dir.len() == 0 {
            return false;
        }
        let _popped = self.current_dir.pop();
        self.file_cursor = 0;
        self.status_message = Status::ChangedDirectory;
        true
    }

    /// Installs a freshly listed entry set for the current directory. The
    /// selection keeps its index where the new list still has it, and is
    /// otherwise clamped to the last entry (or the top of an empty list).
    pub fn refresh_sidebar(&mut self, entries: Vec<Vec<char>>)
        requires
            old(self).wf(),
        ensures
            final(self).wf(),
            final(self).files == entries,
            final(self).file_cursor == if old(self).file_cursor < entries@.len() {
                old(self).file_cursor as int
            } else if entries@.len() == 0 {
                0
            } else {
                entries@.len() - 1
            },
            final(self).current_dir == old(self).current_dir,
            same_buf(*old(self), *final(self)),
            same_scroll(*old(self), *final(self)),
            same_clipboard(*old(self), *final(self)),
            same_meta(*old(self), *final(self)),
    {
        let n = entries.len();
        self.files = entries;
        if n == 0 {
            self.file_cursor = 0;
        } else if self.file_cursor >= n {
            self.file_cursor = n - 1;
        }
    }
}

} // verus!
