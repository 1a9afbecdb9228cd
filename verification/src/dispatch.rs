//! The top-level state machine: one key event in, one [`Action`] out. The
//! contract of [`Editor::handle_key`] spells out, for every mode and key,
//! exactly which operation runs — it is the single dispatch table of the
//! session.

use vstd::prelude::*;

use crate::command::{commit_post, Action};
use crate::edit::{
    step_auto_close, step_backspace, step_delete, step_enter, step_insert_char, step_tab,
};
use crate::editor::{
    buf_stepped, only_command_changed, only_mode_changed, only_selection_changed, Editor, Mode,
    Status,
};
use crate::nav::{step_move_down, step_move_left, step_move_right, step_move_up};
use crate::text::{close_for, close_of};

verus! {

/// One discrete input event, as the input source reports it.
#[derive(Clone, Copy, Debug, PartialEq, Eq, Structural)]
pub enum Key {
    /// A printable character.
    Char(char),
    Enter,
    Backspace,
    Delete,
    Tab,
    Left,
    Right,
    Up,
    Down,
    Esc,
    /// Any key the session does not interpret.
    Other,
}

impl Editor {
    /// Routes one key to the operation the active mode gives it, and answers
    /// with the outside work it calls for.
    ///
    /// In `Command` mode, characters build the command line (`i` on an empty
    /// line enters `Insert` mode), Enter commits it, Backspace edits it, and
    /// the arrows drive the browser: vertical ones move the selection, the
    /// right arrow asks to open the selected entry, the left one ascends to
    /// the parent directory. In `Insert` and `Visual` mode, keys edit the
    /// buffer and the arrows move the cursor; opening brackets and quotes
    /// insert their pair. Delete and Tab edit the buffer in every mode, and
    /// Esc always returns to `Command` mode.
    pub fn handle_key(&mut self, key: Key) -> (act: Action)
        requires
            old(self).wf(),
        ensures
            final(self).wf(),
            key is Esc ==> final(self).mode == Mode::Command && act is Stay
                && only_mode_changed(*old(self), *final(self)),
            key matches Key::Char(c) ==> {
                &&& (old(self).mode == Mode::Command && old(self).command@.len() == 0 && c == 'i')
                    ==> final(self).mode == Mode::Insert && act is Stay && only_mode_changed(
                    *old(self),
                    *final(self),
                )
                &&& (old(self).mode == Mode::Command && !(old(self).command@.len() == 0 && c
                    == 'i')) ==> final(self).command@ == old(self).command@.push(c) && act is Stay
                    && only_command_changed(*old(self), *final(self))
                &&& (old(self).mode == Mode::Insert && close_of(c) is Some) ==> act is Stay
                    && buf_stepped(*old(self), *final(self), step_auto_close(old(self).buf(), c))
                &&& (old(self).mode == Mode::Insert && close_of(c) is None) ==> act is Stay
                    && buf_stepped(*old(self), *final(self), step_insert_char(old(self).buf(), c))
                &&& old(self).mode == Mode::Visual ==> act is Stay && *final(self) == *old(self)
            },
            key is Enter && old(self).mode == Mode::Command ==> commit_post(
                *old(self),
                *final(self),
                act,
            ),
            key is Enter && old(self).mode != Mode::Command ==> act is Stay && buf_stepped(
                *old(self),
                *final(self),
                step_enter(old(self).buf()),
            ),
            key is Backspace && old(self).mode == Mode::Command ==> act is Stay && final(self).command@ == (if old(self).command@.len() > 0 {
                old(self).command@.drop_last()
            } else {
                old(self).command@
            }) && only_command_changed(*old(self), *final(self)),
            key is Backspace && old(self).mode != Mode::Command ==> act is Stay && buf_stepped(
                *old(self),
                *final(self),
                step_backspace(old(self).buf()),
            ),
            key is Delete ==> act is Stay && buf_stepped(
                *old(self),
                *final(self),
                step_delete(old(self).buf()),
            ),
            key is Tab ==> act is Stay && buf_stepped(
                *old(self),
                *final(self),
                step_tab(old(self).buf()),
            ),
            key is Up && old(self).mode == Mode::Command ==> act is Stay && final(self).file_cursor == (if old(self).file_cursor > 0 {
                old(self).file_cursor - 1
            } else {
                0
            }) && only_selection_changed(*old(self), *final(self)),
            key is Up && old(self).mode != Mode::Command ==> act is Stay && buf_stepped(
                *old(self),
                *final(self),
                step_move_up(old(self).buf()),
            ),
            key is Down && old(self).mode == Mode::Command ==> act is Stay && final(self).file_cursor == (if old(self).file_cursor + 1 < old(self).files@.len() {
                old(self).file_cursor + 1
            } else {
                old(self).file_cursor as int
            }) && only_selection_changed(*old(self), *final(self)),
            key is Down && old(self).mode != Mode::Command ==> act is Stay && buf_stepped(
                *old(self),
                *final(self),
                step_move_down(old(self).buf()),
            ),
            key is Right && old(self).mode == Mode::Command ==> *final(self) == *old(self) && (if
                old(self).files@.len() == 0 {
                act is Stay
            } else {
                act matches Action::OpenEntry { name } && name@ == old(self).files@[old(self).file_cursor as int]@
            }),
            key is Right && old(self).mode != Mode::Command ==> act is Stay && buf_stepped(
                *old(self),
                *final(self),
                step_move_right(old(self).buf()),
            ),
            key is Left && old(self).mode == Mode::Command && old(self).current_dir@.len() == 0
                ==> act is Stay && *final(self) == *old(self),
            key is Left && old(self).mode == Mode::Command && old(self).current_dir@.len() > 0
                ==> act is ListDir && final(self).current_dir@ == old(self).current_dir@.take(
                old(self).current_dir@.len() - 1,
            ) && final(self).file_cursor == 0 && final(self).status_message
                == Status::ChangedDirectory,
            key is Left && old(self).mode != Mode::Command ==> act is Stay && buf_stepped(
                *old(self),
                *final(self),
                step_move_left(old(self).buf()),
            ),
            key is Other ==> act is Stay && *final(self) == *old(self),
    {
        match key {
            Key::Esc => {
                self.mode = Mode::Command;
                Action::Stay
            },
            Key::Char(c) => {
                match self.mode {
                    Mode::Command => {
                        if c == 'i' && self.command.len() == 0 {
                            self.mode = Mode::Insert;
                        } else {
                            self.command.push(c);
                        }
                        Action::Stay
                    },
                    Mode::Insert => {
                        if close_for(c).is_some() {
                            self.auto_close(c);
                        } else {
                            self.insert_char(c);
                        }
                        Action::Stay
                    },
                    Mode::Visual => Action::Stay,
                }
            },
            Key::Enter => {
                match self.mode {
                    Mode::Command => self.commit_command(),
                    _ => {
                        self.handle_enter();
                        Action::Stay
                    },
                }
            },
            Key::Backspace => {
                match self.mode {
                    Mode::Command => {
                        let _ = self.command.pop();
                        Action::Stay
                    },
                    _ => {
                        self.handle_backspace();
                        Action::Stay
                    },
                }
            },
            Key::Delete => {
                self.handle_delete();
                Action::Stay
            },
            Key::Tab => {
                self.handle_tab();
                Action::Stay
            },
            Key::Up => {
                match self.mode {
                    Mode::Command => self.move_up_files(),
                    _ => self.move_up(),
                }
                Action::Stay
            },
            Key::Down => {
                match self.mode {
                    Mode::Command => self.move_down_files(),
                    _ => self.move_down(),
                }
                Action::Stay
            },
            Key::Right => {
                match self.mode {
                    Mode::Command => {
                        match self.open_selected() {
                            Some(name) => Action::OpenEntry { name },
                            None => Action::Stay,
                        }
                    },
                    _ => {
                        self.move_right();
                        Action::Stay
                    },
                }
            },
            Key::Left => {
                match self.mode {
                    Mode::Command => {
                        if self.go_back() {
                            Action::ListDir
                        } else {
                            Action::Stay
                        }
                    },
                    _ => {
                        self.move_left();
                        Action::Stay
                    },
                }
            },
            Key::Other => Action::Stay,
        }
    }
}

} // verus!
