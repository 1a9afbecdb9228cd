//! Selection and clipboard: anchoring a line selection, copying the selected
//! inclusive line range into the single-slot clipboard, and pasting the
//! clipboard back as new lines after the cursor line.

use vstd::prelude::*;

use crate::editor::{same_browser, same_buf, same_scroll, BufView, Editor, Mode, Status};
use crate::text::{doc_view, join_lines, join_range, lines_of, split_text};

verus! {

/// The inclusive line range selected between `anchor` and the cursor line,
/// lowest line first. An anchor that outlived the line it pointed at (the
/// document shrank) is clamped to the last line.
pub open spec fn copy_bounds(b: BufView, anchor: nat) -> (int, int) {
    let a = if anchor < b.doc.len() {
        anchor as int
    } else {
        b.doc.len() - 1
    };
    let l = b.line as int;
    if a <= l {
        (a, l)
    } else {
        (l, a)
    }
}

/// The text a copy captures: the selected lines joined by `'\n'`.
pub open spec fn copied_text(b: BufView, anchor: nat) -> Seq<char> {
    let (s, e) = copy_bounds(b, anchor);
    join_lines(b.doc.subrange(s, e + 1))
}

/// The document after pasting `clip`: its lines inserted right after line
/// `l`, everything else in place.
pub open spec fn pasted_doc(doc: Seq<Seq<char>>, l: nat, clip: Seq<char>) -> Seq<Seq<char>> {
    doc.take(l as int + 1) + lines_of(clip) + doc.skip(l as int + 1)
}

impl Editor {
    /// The inclusive line range to highlight: the anchor and the cursor line
    /// in either order while a `Visual` selection is active, and the inert
    /// `(0, 0)` otherwise.
    pub fn selection_range(&self) -> (r: (usize, usize))
        ensures
            self.visual_start matches Some(a) ==> (self.mode is Visual ==> r == (if a
                <= self.cursor_l {
                (a, self.cursor_l)
            } else {
                (self.cursor_l, a)
            })),
            !(self.visual_start is Some && self.mode is Visual) ==> r == (0usize, 0usize),
    {
        match self.visual_start {
            Some(a) => {
                if matches!(self.mode, Mode::Visual) {
                    if a <= self.cursor_l {
                        (a, self.cursor_l)
                    } else {
                        (self.cursor_l, a)
                    }
                } else {
                    (0, 0)
                }
            },
            None => (0, 0),
        }
    }

    /// Records the cursor line as the selection anchor and enters `Visual`
    /// mode.
    pub fn start_selection(&mut self)
        requires
            old(self).wf(),
        ensures
            final(self).wf(),
            final(self).visual_start == Some(old(self).cursor_l),
            final(self).mode == Mode::Visual,
            final(self).clipboard == old(self).clipboard,
            final(self).file_path == old(self).file_path,
            final(self).status_message == old(self).status_message,
            final(self).command == old(self).command,
            same_buf(*old(self), *final(self)),
            same_browser(*old(self), *final(self)),
            same_scroll(*old(self), *final(self)),
    {
        self.visual_start = Some(self.cursor_l);
        self.mode = Mode::Visual;
    }

    /// Copies the lines between the anchor and the cursor (inclusive, either
    /// order) into the clipboard, clears the anchor and returns to `Command`
    /// mode. With no anchor set, nothing at all changes.
    pub fn copy_selection(&mut self)
        requires
            old(self).wf(),
        ensures
            final(self).wf(),
            old(self).visual_start is None ==> *final(self) == *old(self),
            old(self).visual_start matches Some(a) ==> {
                &&& final(self).clipboard matches Some(cb) && cb@ == copied_text(
                    old(self).buf(),
                    a as nat,
                )
                &&& final(self).mode == Mode::Command
                &&& final(self).visual_start is None
                &&& final(self).status_message == Status::Copied
                &&& final(self).file_path == old(self).file_path
                &&& final(self).command == old(self).command
                &&& same_buf(*old(self), *final(self))
                &&& same_browser(*old(self), *final(self))
                &&& same_scroll(*old(self), *final(self))
            },
    {
        let anchor = match self.visual_start {
            Some(a) => a,
            None => {
                return ;
            },
        };
        let n = self.content.len();
        let a = if anchor < n {
            anchor
        } else {
            n - 1
        };
        let s = if a <= self.cursor_l {
            a
        } else {
            self.cursor_l
        };
        let e = if a <= self.cursor_l {
            self.cursor_l
        } else {
            a
        };
        let joined = join_range(&self.content, s, e);
        self.clipboard = Some(joined);
        self.status_message = Status::Copied;
        self.mode = Mode::Command;
        self.visual_start = None;
    }

    /// Inserts the clipboard's lines right after the cursor line, leaving the
    /// cursor and the clipboard itself unchanged; pasting does not consume
    /// the clipboard. With an empty clipboard slot nothing at all changes.
    pub fn paste_lines(&mut self)
        requires
            old(self).wf(),
        ensures
            final(self).wf(),
            old(self).clipboard is None ==> *final(self) == *old(self),
            old(self).clipboard matches Some(cb) ==> {
                &&& final(self).doc() == pasted_doc(
                    old(self).doc(),
                    old(self).cursor_l as nat,
                    cb@,
                )
                &&& final(self).cursor_l == old(self).cursor_l
                &&& final(self).cursor_c == old(self).cursor_c
                &&& final(self).status_message == Status::Pasted
                &&& final(self).clipboard == old(self).clipboard
                &&& final(self).visual_start == old(self).visual_start
                &&& final(self).mode == old(self).mode
                &&& final(self).file_path == old(self).file_path
                &&& final(self).command == old(self).command
                &&& same_browser(*old(self), *final(self))
                &&& same_scroll(*old(self), *final(self))
            },
    {
        if self.clipboard.is_none() {
            return ;
        }
        let mut lines: Vec<Vec<char>> = match &self.clipboard {
            Some(cb) => split_text(cb),
            None => Vec::new(),
        };
        let ghost cbv = match old(self).clipboard {
            Some(cb) => cb@,
            None => Seq::<char>::empty(),
        };
        let ghost lines0 = lines@;
        let ghost base = self.content@;
        let n0 = self.content.len();
        let l = self.cursor_l;
        let mut k = lines.len();
        proof {
            assert(lines0.skip(k as int) =~= Seq::<Vec<char>>::empty());
            assert(base.take(l as int + 1) + lines0.skip(k as int) + base.skip(l as int + 1)
                =~= base);
            assert(lines0.take(lines0.len() as int) =~= lines0);
        }
        while k > 0
            invariant
                k <= lines0.len(),
                lines@ == lines0.take(k as int),
                l < n0,
                n0 == base.len(),
                l == self.cursor_l,
                self.content@ =~= base.take(l as int + 1) + lines0.skip(k as int) + base.skip(
                    l as int + 1,
                ),
                self.cursor_c == old(self).cursor_c,
                self.clipboard == old(self).clipboard,
                self.visual_start == old(self).visual_start,
                self.mode == old(self).mode,
                self.file_path == old(self).file_path,
                self.command == old(self).command,
                self.status_message == old(self).status_message,
                same_browser(*old(self), *self),
                same_scroll(*old(self), *self),
            decreases k,
        {
            k -= 1;
            let line = match lines.pop() {
                Some(x) => x,
                None => Vec::new(),
            };
            proof {
                assert(lines0.take(k as int + 1)[k as int] == lines0[k as int]);
            }
            self.content.insert(l + 1, line);
            proof {
                let prev = base.take(l as int + 1) + lines0.skip(k as int + 1) + base.skip(
                    l as int + 1,
                );
                assert(prev.insert(l as int + 1, lines0[k as int]) =~= base.take(l as int + 1)
                    + lines0.skip(k as int) + base.skip(l as int + 1)) by {
                    prev.insert_ensures(l as int + 1, lines0[k as int]);
                }
            }
        }
        self.status_message = Status::Pasted;
        proof {
            assert(doc_view(self.content@) =~= pasted_doc(
                old(self).doc(),
                old(self).cursor_l as nat,
                cbv,
            )) by {
                let fin = base.take(l as int + 1) + lines0 + base.skip(l as int + 1);
                assert(lines0.skip(0) =~= lines0);
                assert(doc_view(lines0) == lines_of(cbv));
                assert(doc_view(base.take(l as int + 1)) =~= doc_view(base).take(l as int + 1));
                assert(doc_view(base.skip(l as int + 1)) =~= doc_view(base).skip(l as int + 1));
                assert(doc_view(fin) =~= doc_view(base.take(l as int + 1)) + doc_view(lines0)
                    + doc_view(base.skip(l as int + 1)));
            }
            assert(self.doc()[self.cursor_l as int] == old(self).doc()[old(self).cursor_l as int]);
        }
    }
}

} // verus!
