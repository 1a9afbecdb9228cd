//! Cursor movement, browser-selection movement, and the viewport scrolling
//! rule that keeps the cursor (or the selected entry) inside the visible
//! window.

use vstd::prelude::*;

use crate::editor::{edit_frame, same_browser, same_buf, same_clipboard, same_meta, same_scroll,
    BufView, Editor};

verus! {

/// Moving left: back one column, or to the end of the previous line when at
/// column zero, or nothing at the very start of the document.
pub open spec fn step_move_left(b: BufView) -> BufView {
    if b.col > 0 {
        BufView { col: (b.col - 1) as nat, ..b }
    } else if b.line > 0 {
        BufView { line: (b.line - 1) as nat, col: b.doc[b.line - 1].len(), ..b }
    } else {
        b
    }
}

/// Moving right: forward one column, or to column zero of the next line when
/// at the end of a line, or nothing at the very end of the document.
pub open spec fn step_move_right(b: BufView) -> BufView {
    if b.col < b.doc[b.line as int].len() {
        BufView { col: (b.col + 1) as nat, ..b }
    } else if b.line + 1 < b.doc.len() {
        BufView { line: (b.line + 1) as nat, col: 0, ..b }
    } else {
        b
    }
}

/// Moving up: one line up, the column clamped to the destination line's
/// length; nothing on the first line.
pub open spec fn step_move_up(b: BufView) -> BufView {
    if b.line > 0 {
        let len = b.doc[b.line - 1].len();
        BufView { line: (b.line - 1) as nat, col: if b.col <= len { b.col } else { len }, ..b }
    } else {
        b
    }
}

/// Moving down: one line down, the column clamped to the destination line's
/// length; nothing on the last line.
pub open spec fn step_move_down(b: BufView) -> BufView {
    if b.line + 1 < b.doc.len() {
        let len = b.doc[b.line as int + 1].len();
        BufView { line: (b.line + 1) as nat, col: if b.col <= len { b.col } else { len }, ..b }
    } else {
        b
    }
}

impl Editor {
    /// Moves the cursor one step left, wrapping to the end of the previous
    /// line at column zero.
    pub fn move_left(&mut self)
        requires
            old(self).wf(),
        ensures
            final(self).wf(),
            final(self).buf() == step_move_left(old(self).buf()),
            edit_frame(*old(self), *final(self)),
    {
        if self.cursor_c > 0 {
            self.cursor_c -= 1;
        } else if self.cursor_l > 0 {
            self.cursor_l -= 1;
            self.cursor_c = self.content[self.cursor_l].len();
        }
    }

    /// Moves the cursor one step right, wrapping to the start of the next
    /// line at the end of a line.
    pub fn move_right(&mut self)
        requires
            old(self).wf(),
        ensures
            final(self).wf(),
            final(self).buf() == step_move_right(old(self).buf()),
            edit_frame(*old(self), *final(self)),
    {
        let n = self.content.len();
        if self.cursor_c < self.content[self.cursor_l].len() {
            self.cursor_c += 1;
        } else if self.cursor_l < n - 1 {
            self.cursor_l += 1;
            self.cursor_c = 0;
        }
    }

    /// Moves the cursor one line up; the column never ends past the
    /// destination line's length.
    pub fn move_up(&mut self)
        requires
            old(self).wf(),
        ensures
            final(self).wf(),
            final(self).buf() == step_move_up(old(self).buf()),
            final(self).cursor_c <= final(self).content@[final(self).cursor_l as int]@.len(),
            edit_frame(*old(self), *final(self)),
    {
        if self.cursor_l > 0 {
            self.cursor_l -= 1;
            let len = self.content[self.cursor_l].len();
            if self.cursor_c > len {
                self.cursor_c = len;
            }
        }
    }

    /// Moves the cursor one line down; the column never ends past the
    /// destination line's length.
    pub fn move_down(&mut self)
        requires
            old(self).wf(),
        ensures
            final(self).wf(),
            final(self).buf() == step_move_down(old(self).buf()),
            final(self).cursor_c <= final(self).content@[final(self).cursor_l as int]@.len(),
            edit_frame(*old(self), *final(self)),
    {
        let n = self.content.len();
        if self.cursor_l < n - 1 {
            self.cursor_l += 1;
            let len = self.content[self.cursor_l].len();
            if self.cursor_c > len {
                self.cursor_c = len;
            }
        }
    }

    /// Moves the browser selection one entry up; nothing at the top.
    pub fn move_up_files(&mut self)
        requires
            old(self).wf(),
        ensures
            final(self).wf(),
            old(self).file_cursor > 0 ==> final(self).file_cursor == old(self).file_cursor - 1,
            old(self).file_cursor == 0 ==> final(self).file_cursor == 0,
            final(self).current_dir == old(self).current_dir,
            final(self).files == old(self).files,
            same_buf(*old(self), *final(self)),
            same_scroll(*old(self), *final(self)),
            same_clipboard(*old(self), *final(self)),
            same_meta(*old(self), *final(self)),
    {
        if self.file_cursor > 0 {
            self.file_cursor -= 1;
        }
    }

    /// Moves the browser selection one entry down; nothing at the bottom or
    /// on an empty list.
    pub fn move_down_files(&mut self)
        requires
            old(self).wf(),
        ensures
            final(self).wf(),
            old(self).file_cursor + 1 < old(self).files@.len() ==> final(self).file_cursor == old(self).file_cursor + 1,
            old(self).file_cursor + 1 >= old(self).files@.len() ==> final(self).file_cursor == old(self).file_cursor,
            final(self).current_dir == old(self).current_dir,
            final(self).files == old(self).files,
            same_buf(*old(self), *final(self)),
            same_scroll(*old(self), *final(self)),
            same_clipboard(*old(self), *final(self)),
            same_meta(*old(self), *final(self)),
    {
        let n = self.files.len();
        if self.file_cursor + 1 < n {
            self.file_cursor += 1;
        }
    }

    /// Scrolls the document window so the cursor line stays visible among
    /// `visible_rows` rows: up to the cursor when the cursor is above the
    /// window, down just enough when it is below, otherwise unchanged. The
    /// offset is never moved speculatively.
    pub fn adjust_scroll(&mut self, visible_rows: usize)
        requires
            old(self).wf(),
            visible_rows >= 1,
        ensures
            final(self).wf(),
            old(self).cursor_l < old(self).scroll_offset ==> final(self).scroll_offset == old(self).cursor_l,
            old(self).cursor_l >= old(self).scroll_offset + visible_rows ==> final(self).scroll_offset == old(self).cursor_l - visible_rows + 1,
            old(self).scroll_offset <= old(self).cursor_l < old(self).scroll_offset + visible_rows
                ==> final(self).scroll_offset == old(self).scroll_offset,
            final(self).scroll_offset <= old(self).cursor_l < final(self).scroll_offset
                + visible_rows,
            final(self).sidebar_scroll == old(self).sidebar_scroll,
            same_buf(*old(self), *final(self)),
            same_browser(*old(self), *final(self)),
            same_clipboard(*old(self), *final(self)),
            same_meta(*old(self), *final(self)),
    {
        if self.cursor_l < self.scroll_offset {
            self.scroll_offset = self.cursor_l;
        } else if self.cursor_l - self.scroll_offset >= visible_rows {
            self.scroll_offset = self.cursor_l - visible_rows + 1;
        }
    }

    /// The same scrolling rule, applied to the browser entry list: keeps the
    /// selected entry among the `visible_files` visible ones.
    pub fn adjust_sidebar_scroll(&mut self, visible_files: usize)
        requires
            old(self).wf(),
            visible_files >= 1,
        ensures
            final(self).wf(),
            old(self).file_cursor < old(self).sidebar_scroll ==> final(self).sidebar_scroll == old(self).file_cursor,
            old(self).file_cursor >= old(self).sidebar_scroll + visible_files ==> final(self).sidebar_scroll == old(self).file_cursor - visible_files + 1,
            old(self).sidebar_scroll <= old(self).file_cursor < old(self).sidebar_scroll
                + visible_files ==> final(self).sidebar_scroll == old(self).sidebar_scroll,
            final(self).sidebar_scroll <= old(self).file_cursor < final(self).sidebar_scroll
                + visible_files,
            final(self).scroll_offset == old(self).scroll_offset,
            same_buf(*old(self), *final(self)),
            same_browser(*old(self), *final(self)),
            same_clipboard(*old(self), *final(self)),
            same_meta(*old(self), *final(self)),
    {
        if self.file_cursor < self.sidebar_scroll {
            self.sidebar_scroll = self.file_cursor;
        } else if self.file_cursor - self.sidebar_scroll >= visible_files {
            self.sidebar_scroll = self.file_cursor - visible_files + 1;
        }
    }
}

} // verus!
