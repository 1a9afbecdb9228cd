//! The `:`-command line: what committing it decides. The library parses the
//! accumulated command and answers with an [`Action`] describing the outside
//! work (writing a file, reading a path, quitting); the caller performs it
//! and reports back through [`Editor::write_ok`], [`Editor::write_failed`],
//! [`Editor::adopt_path`] or [`Editor::open_file_from_command`].

use vstd::prelude::*;

use crate::editor::{
    loaded_doc, same_browser, same_buf, same_clipboard, same_scroll, Editor, Mode, Status,
};
use crate::text::{
    chars_eq, chars_starts_with, copy_chars, join_lines, join_text, trim_spec, trim_tail,
};

verus! {

/// What the session asks its surroundings to do after a key was handled.
/// `path`s are as the user typed them: resolving them against the current
/// directory is the caller's business.
pub enum Action {
    /// Nothing: the effect was internal to the session.
    Stay,
    /// Terminate the session.
    Quit,
    /// Write `data` to the bound path `path`.
    Write { path: Vec<char>, data: Vec<char> },
    /// Write `data` to `path` and then terminate.
    WriteQuit { path: Vec<char>, data: Vec<char> },
    /// Write `data` to the newly named `path`; on success the caller adopts
    /// it through [`Editor::adopt_path`].
    WriteAs { path: Vec<char>, data: Vec<char> },
    /// Load `path` (or create it empty) and report back through
    /// [`Editor::open_file_from_command`].
    OpenPath { path: Vec<char> },
    /// Find out whether the selected entry `name` is a file or a directory
    /// and report back through [`Editor::open_entry_file`] or
    /// [`Editor::enter_directory`].
    OpenEntry { name: Vec<char> },
    /// List the current directory and report back through
    /// [`Editor::refresh_sidebar`].
    ListDir,
}

/// No path is bound to the document: it was opened as the untitled `.`.
pub open spec fn path_unbound(p: Seq<char>) -> bool {
    p == seq!['.']
}

/// The committed command asks to edit a path: `:e ` followed by it.
pub open spec fn cmd_is_edit(c: Seq<char>) -> bool {
    c.len() >= 3 && c.take(3) == seq![':', 'e', ' ']
}

/// The committed command asks to write to a named path: `:w ` followed by it.
pub open spec fn cmd_is_write_as(c: Seq<char>) -> bool {
    c.len() >= 3 && c.take(3) == seq![':', 'w', ' ']
}

/// The committed command is exactly `:w`.
pub open spec fn cmd_is_write(c: Seq<char>) -> bool {
    c == seq![':', 'w']
}

/// The committed command is exactly `:q`.
pub open spec fn cmd_is_quit(c: Seq<char>) -> bool {
    c == seq![':', 'q']
}

/// The committed command is exactly `:wq`.
pub open spec fn cmd_is_write_quit(c: Seq<char>) -> bool {
    c == seq![':', 'w', 'q']
}

/// The path argument of `:e ` or `:w `: everything after the first two
/// characters, trimmed of surrounding whitespace.
pub open spec fn cmd_arg(c: Seq<char>) -> Seq<char> {
    trim_spec(c.skip(2))
}

impl Editor {
    /// Whether the document has no bound path.
    pub fn path_is_unbound(&self) -> (r: bool)
        ensures
            r == path_unbound(self.file_path@),
    {
        let r = chars_eq(&self.file_path, &['.']);
        proof {
            if self.file_path@ =~= seq!['.'] {
            }
        }
        r
    }

    /// The document in its persisted form: lines joined by `'\n'`, no
    /// trailing newline.
    pub fn serialize(&self) -> (r: Vec<char>)
        ensures
            r@ == join_lines(self.doc()),
    {
        join_text(&self.content)
    }

    /// Decides what `:w` does: with a bound path, asks for the document to
    /// be written there; with none, reports the usage message and asks for
    /// nothing, leaving the file system untouched.
    pub fn save(&mut self) -> (act: Action)
        requires
            old(self).wf(),
        ensures
            final(self).wf(),
            path_unbound(old(self).file_path@) ==> {
                &&& act is Stay
                &&& final(self).status_message == Status::UsageSave
                &&& same_except_status(*old(self), *final(self))
            },
            !path_unbound(old(self).file_path@) ==> {
                &&& (act matches Action::Write { path, data } && path@ == old(self).file_path@
                    && data@ == join_lines(old(self).doc()))
                &&& *final(self) == *old(self)
            },
    {
        if self.path_is_unbound() {
            self.status_message = Status::UsageSave;
            Action::Stay
        } else {
            Action::Write { path: copy_chars(&self.file_path), data: join_text(&self.content) }
        }
    }

    /// Decides what `:w <path>` does: asks for the document to be written to
    /// that path; the session itself is untouched until the write succeeds
    /// and the caller adopts the path.
    pub fn save_as(&self, new_path: Vec<char>) -> (act: Action)
        ensures
            act matches Action::WriteAs { path, data } && path == new_path && data@ == join_lines(
                self.doc(),
            ),
    {
        Action::WriteAs { path: new_path, data: join_text(&self.content) }
    }

    /// A write to the bound path succeeded.
    pub fn write_ok(&mut self)
        requires
            old(self).wf(),
        ensures
            final(self).wf(),
            final(self).status_message == Status::Saved,
            same_except_status(*old(self), *final(self)),
    {
        self.status_message = Status::Saved;
    }

    /// A write or read failed for a reason other than the file missing.
    pub fn write_failed(&mut self)
        requires
            old(self).wf(),
        ensures
            final(self).wf(),
            final(self).status_message == Status::IoError,
            same_except_status(*old(self), *final(self)),
    {
        self.status_message = Status::IoError;
    }

    /// A write to a newly named path succeeded: the document adopts it.
    pub fn adopt_path(&mut self, path: Vec<char>)
        requires
            old(self).wf(),
        ensures
            final(self).wf(),
            final(self).file_path == path,
            final(self).status_message == Status::SavedAs,
            final(self).mode == old(self).mode,
            final(self).command == old(self).command,
            same_buf(*old(self), *final(self)),
            same_browser(*old(self), *final(self)),
            same_scroll(*old(self), *final(self)),
            same_clipboard(*old(self), *final(self)),
    {
        self.file_path = path;
        self.status_message = Status::SavedAs;
    }

    /// Installs what `:e <path>` found: the lines of an existing file, or a
    /// fresh empty document for a path yet to be created. Either way the
    /// path is adopted, the cursor and scroll return to the origin and the
    /// session enters `Insert` mode.
    pub fn open_file_from_command(&mut self, path: Vec<char>, loaded: Option<Vec<Vec<char>>>)
        requires
            old(self).wf(),
        ensures
            final(self).wf(),
            final(self).doc() == loaded_doc(loaded),
            final(self).cursor_l == 0 && final(self).cursor_c == 0,
            final(self).scroll_offset == 0,
            final(self).file_path == path,
            final(self).mode == Mode::Insert,
            final(self).status_message == if loaded is Some {
                Status::OpenedFile
            } else {
                Status::NewFile
            },
            final(self).command == old(self).command,
            final(self).sidebar_scroll == old(self).sidebar_scroll,
            same_browser(*old(self), *final(self)),
            same_clipboard(*old(self), *final(self)),
    {
        self.status_message = match loaded {
            Some(_) => Status::OpenedFile,
            None => Status::NewFile,
        };
        self.content = crate::editor::normalize_lines(loaded);
        self.file_path = path;
        self.cursor_l = 0;
        self.cursor_c = 0;
        self.scroll_offset = 0;
        self.mode = Mode::Insert;
    }

    /// Commits the command line: parses it, clears it whatever the outcome,
    /// and answers with the action its surroundings must perform. Unknown
    /// commands only set a status message.
    pub fn commit_command(&mut self) -> (act: Action)
        requires
            old(self).wf(),
        ensures
            final(self).wf(),
            commit_post(*old(self), *final(self), act),
    {
        let act: Action;
        if chars_starts_with(&self.command, &[':', 'e', ' ']) {
            let path = trim_tail(&self.command, 2);
            proof {
                assert(self.command@.take(3) =~= seq![':', 'e', ' ']);
            }
            act = Action::OpenPath { path };
        } else if chars_starts_with(&self.command, &[':', 'w', ' ']) {
            let path = trim_tail(&self.command, 2);
            proof {
                assert(self.command@.take(3) =~= seq![':', 'w', ' ']);
            }
            act = self.save_as(path);
        } else if chars_eq(&self.command, &[':', 'w']) {
            proof {
                assert(self.command@ =~= seq![':', 'w']);
            }
            act = self.save();
        } else if chars_eq(&self.command, &[':', 'q']) {
            proof {
                assert(self.command@ =~= seq![':', 'q']);
            }
            act = Action::Quit;
        } else if chars_eq(&self.command, &[':', 'w', 'q']) {
            proof {
                assert(self.command@ =~= seq![':', 'w', 'q']);
            }
            let saved = self.save();
            act = match saved {
                Action::Write { path, data } => Action::WriteQuit { path, data },
                _ => Action::Quit,
            };
        } else {
            self.status_message = Status::UnknownCommand;
            act = Action::Stay;
        }
        self.command = Vec::new();
        act
    }
}

/// What committing the command line `pre.command` does: the relation between
/// the session before (`pre`), the session after (`post`) and the action
/// handed out. The command line is always cleared; only the recognized
/// commands ask for outside work, and only `:w` forms touch the status.
pub open spec fn commit_post(pre: Editor, post: Editor, act: Action) -> bool {
    let c = pre.command@;
    &&& post.command@.len() == 0
    &&& cmd_is_edit(c) ==> {
        &&& (act matches Action::OpenPath { path } && path@ == cmd_arg(c))
        &&& post.status_message == pre.status_message
        &&& same_except_command(pre, post)
    }
    &&& cmd_is_write_as(c) ==> {
        &&& (act matches Action::WriteAs { path, data } && path@ == cmd_arg(c) && data@
            == join_lines(pre.doc()))
        &&& post.status_message == pre.status_message
        &&& same_except_command(pre, post)
    }
    &&& cmd_is_write(c) && path_unbound(pre.file_path@) ==> {
        &&& act is Stay
        &&& post.status_message == Status::UsageSave
        &&& same_except_command(pre, post)
    }
    &&& cmd_is_write(c) && !path_unbound(pre.file_path@) ==> {
        &&& (act matches Action::Write { path, data } && path@ == pre.file_path@ && data@
            == join_lines(pre.doc()))
        &&& post.status_message == pre.status_message
        &&& same_except_command(pre, post)
    }
    &&& cmd_is_quit(c) ==> {
        &&& act is Quit
        &&& post.status_message == pre.status_message
        &&& same_except_command(pre, post)
    }
    &&& cmd_is_write_quit(c) && path_unbound(pre.file_path@) ==> {
        &&& act is Quit
        &&& post.status_message == Status::UsageSave
        &&& same_except_command(pre, post)
    }
    &&& cmd_is_write_quit(c) && !path_unbound(pre.file_path@) ==> {
        &&& (act matches Action::WriteQuit { path, data } && path@ == pre.file_path@ && data@
            == join_lines(pre.doc()))
        &&& post.status_message == pre.status_message
        &&& same_except_command(pre, post)
    }
    &&& !cmd_is_edit(c) && !cmd_is_write_as(c) && !cmd_is_write(c) && !cmd_is_quit(c)
        && !cmd_is_write_quit(c) ==> {
        &&& act is Stay
        &&& post.status_message == Status::UnknownCommand
        &&& same_except_command(pre, post)
    }
}

/// Everything but the status message is unchanged between `a` and `b`.
pub open spec fn same_except_status(a: Editor, b: Editor) -> bool {
    &&& a.file_path == b.file_path
    &&& a.mode == b.mode
    &&& a.command == b.command
    &&& same_buf(a, b)
    &&& same_browser(a, b)
    &&& same_scroll(a, b)
    &&& same_clipboard(a, b)
}

/// Everything but the status message and the command line is unchanged
/// between `a` and `b`.
pub open spec fn same_except_command(a: Editor, b: Editor) -> bool {
    &&& a.file_path == b.file_path
    &&& a.mode == b.mode
    &&& same_buf(a, b)
    &&& same_browser(a, b)
    &&& same_scroll(a, b)
    &&& same_clipboard(a, b)
}

} // verus!
