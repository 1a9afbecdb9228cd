//! The buffer mutation primitives: character insertion, bracket auto-closing,
//! line splitting (plain and indent-preserving), backspace, forward delete and
//! tab. Each operation's contract equates the new buffer to a spec-level step
//! function on [`BufView`], so that laws about edit sequences can be proved
//! once over the step functions.

use vstd::prelude::*;

use crate::editor::{edit_frame, wf_buf, BufView, Editor};
use crate::text::{
    bracket_pair, close_for, close_of, is_bracket_pair, leading_ws, lemma_doc_set,
    lemma_doc_insert, lemma_ws_prefix_len, ws_prefix_len,
};

verus! {

/// Four spaces: the fixed indentation unit inserted by tab and by the
/// bracket-aware line split.
pub open spec fn indent_unit() -> Seq<char> {
    seq![' ', ' ', ' ', ' ']
}

/// Inserting `c` at the cursor: the cursor line gains `c` at the cursor
/// column and the cursor advances past it.
pub open spec fn step_insert_char(b: BufView, c: char) -> BufView {
    BufView {
        doc: b.doc.update(b.line as int, b.doc[b.line as int].insert(b.col as int, c)),
        line: b.line,
        col: (b.col + 1) as nat,
    }
}

/// Typing an opening bracket or quote: the pair is inserted adjacently and
/// the cursor ends between the two. Any other character changes nothing.
pub open spec fn step_auto_close(b: BufView, c: char) -> BufView {
    match close_of(c) {
        Some(cl) => BufView {
            doc: b.doc.update(
                b.line as int,
                b.doc[b.line as int].insert(b.col as int, c).insert(b.col as int + 1, cl),
            ),
            line: b.line,
            col: (b.col + 1) as nat,
        },
        None => b,
    }
}

/// Tab: the indentation unit is inserted at the cursor and the cursor moves
/// past it.
pub open spec fn step_tab(b: BufView) -> BufView {
    let line = b.doc[b.line as int];
    BufView {
        doc: b.doc.update(b.line as int, line.take(b.col as int) + indent_unit() + line.skip(b.col as int)),
        line: b.line,
        col: (b.col + 4) as nat,
    }
}

/// Plain line split: the suffix of the cursor line from the cursor column on
/// becomes a new line right below, and the cursor moves to its start.
pub open spec fn step_split_line(b: BufView) -> BufView {
    let line = b.doc[b.line as int];
    BufView {
        doc: b.doc.update(b.line as int, line.take(b.col as int)).insert(
            b.line as int + 1,
            line.skip(b.col as int),
        ),
        line: (b.line + 1) as nat,
        col: 0,
    }
}

/// Indent-preserving, bracket-aware split. The new line copies the leading
/// whitespace of the whole original line. When the characters right before
/// and right after the cursor form a matching bracket pair, two lines are
/// inserted instead — an indented blank line and a closing line carrying the
/// suffix — and the cursor ends after the deeper indentation.
pub open spec fn step_enter(b: BufView) -> BufView {
    let line = b.doc[b.line as int];
    let indent = line.take(ws_prefix_len(line) as int);
    let prefix = line.take(b.col as int);
    let suffix = line.skip(b.col as int);
    if 0 < b.col && b.col < line.len() && is_bracket_pair(line[b.col - 1], line[b.col as int]) {
        BufView {
            doc: b.doc.update(b.line as int, prefix).insert(b.line as int + 1, indent + indent_unit()).insert(
                b.line as int + 2,
                indent + suffix,
            ),
            line: (b.line + 1) as nat,
            col: (indent.len() + 4) as nat,
        }
    } else {
        BufView {
            doc: b.doc.update(b.line as int, prefix).insert(b.line as int + 1, indent + suffix),
            line: (b.line + 1) as nat,
            col: indent.len(),
        }
    }
}

/// Backspace. Inside a line the character before the cursor goes; at the
/// start of a line the line is merged onto the end of the previous one, the
/// cursor landing at the seam; at the very start of the document nothing
/// happens.
pub open spec fn step_backspace(b: BufView) -> BufView {
    if b.col > 0 {
        BufView {
            doc: b.doc.update(b.line as int, b.doc[b.line as int].remove(b.col - 1)),
            line: b.line,
            col: (b.col - 1) as nat,
        }
    } else if b.line > 0 {
        let prev = b.doc[b.line - 1];
        BufView {
            doc: b.doc.update(b.line - 1, prev + b.doc[b.line as int]).remove(b.line as int),
            line: (b.line - 1) as nat,
            col: prev.len(),
        }
    } else {
        b
    }
}

/// Forward delete. Before the end of a line the character at the cursor
/// goes; at the end of a line the following line is merged onto it; at the
/// very end of the document nothing happens. The cursor stays put.
pub open spec fn step_delete(b: BufView) -> BufView {
    let line = b.doc[b.line as int];
    if b.col < line.len() {
        BufView { doc: b.doc.update(b.line as int, line.remove(b.col as int)), line: b.line, col: b.col }
    } else if b.line + 1 < b.doc.len() {
        BufView {
            doc: b.doc.update(b.line as int, line + b.doc[b.line as int + 1]).remove(b.line as int + 1),
            line: b.line,
            col: b.col,
        }
    } else {
        b
    }
}

/// Every step of an editing operation keeps the buffer well formed.
pub proof fn lemma_steps_wf(b: BufView, c: char)
    requires
        wf_buf(b),
    ensures
        wf_buf(step_insert_char(b, c)),
        wf_buf(step_auto_close(b, c)),
        wf_buf(step_tab(b)),
        wf_buf(step_split_line(b)),
        wf_buf(step_enter(b)),
        wf_buf(step_backspace(b)),
        wf_buf(step_delete(b)),
{
    lemma_ws_prefix_len(b.doc[b.line as int]);
}

impl Editor {
    /// Inserts `c` at the cursor and advances the cursor past it.
    pub fn insert_char(&mut self, c: char)
        requires
            old(self).wf(),
        ensures
            final(self).wf(),
            final(self).buf() == step_insert_char(old(self).buf(), c),
            edit_frame(*old(self), *final(self)),
    {
        let l = self.cursor_l;
        let mut line = self.content.remove(l);
        line.insert(self.cursor_c, c);
        let m = line.len();
        self.content.insert(l, line);
        proof {
            lemma_doc_set(old(self).content@, l as int, self.content@[l as int]);
            assert(self.cursor_c < m);
        }
        self.cursor_c += 1;
        proof {
            lemma_steps_wf(old(self).buf(), c);
            assert(self.buf() =~= step_insert_char(old(self).buf(), c));
        }
    }

    /// Types an opening bracket or quote: inserts the pair and leaves the
    /// cursor between the two. Other characters change nothing.
    pub fn auto_close(&mut self, c: char)
        requires
            old(self).wf(),
        ensures
            final(self).wf(),
            final(self).buf() == step_auto_close(old(self).buf(), c),
            edit_frame(*old(self), *final(self)),
    {
        let close = match close_for(c) {
            Some(cl) => cl,
            None => {
                return ;
            },
        };
        let l = self.cursor_l;
        let mut line = self.content.remove(l);
        line.insert(self.cursor_c, c);
        let m = line.len();
        assert(self.cursor_c < m);
        line.insert(self.cursor_c + 1, close);
        self.content.insert(l, line);
        proof {
            lemma_doc_set(old(self).content@, l as int, self.content@[l as int]);
        }
        self.cursor_c += 1;
        proof {
            lemma_steps_wf(old(self).buf(), c);
            assert(self.buf() =~= step_auto_close(old(self).buf(), c));
        }
    }

    /// Tab: inserts four literal spaces at the cursor and advances the cursor
    /// past them.
    pub fn handle_tab(&mut self)
        requires
            old(self).wf(),
        ensures
            final(self).wf(),
            final(self).buf() == step_tab(old(self).buf()),
            edit_frame(*old(self), *final(self)),
    {
        let l = self.cursor_l;
        let mut line = self.content.remove(l);
        let ghost line0 = line@;
        line.insert(self.cursor_c, ' ');
        line.insert(self.cursor_c, ' ');
        line.insert(self.cursor_c, ' ');
        line.insert(self.cursor_c, ' ');
        let m = line.len();
        proof {
            assert(line@ =~= line0.take(self.cursor_c as int) + indent_unit() + line0.skip(
                self.cursor_c as int,
            ));
            assert(self.cursor_c + 4 <= m);
        }
        self.content.insert(l, line);
        proof {
            lemma_doc_set(old(self).content@, l as int, self.content@[l as int]);
        }
        self.cursor_c += 4;
        proof {
            lemma_steps_wf(old(self).buf(), ' ');
            assert(self.buf() =~= step_tab(old(self).buf()));
        }
    }

    /// Splits the cursor line at the cursor: the suffix becomes a new line
    /// below and the cursor moves to its first column.
    pub fn split_line(&mut self)
        requires
            old(self).wf(),
        ensures
            final(self).wf(),
            final(self).buf() == step_split_line(old(self).buf()),
            edit_frame(*old(self), *final(self)),
    {
        let n = self.content.len();
        let l = self.cursor_l;
        let mut line = self.content.remove(l);
        let suffix = line.split_off(self.cursor_c);
        self.content.insert(l, line);
        proof {
            lemma_doc_set(old(self).content@, l as int, self.content@[l as int]);
        }
        let ghost mid = self.content@;
        self.content.insert(l + 1, suffix);
        proof {
            lemma_doc_insert(mid, l + 1, self.content@[l + 1]);
        }
        self.cursor_l = l + 1;
        self.cursor_c = 0;
        proof {
            lemma_steps_wf(old(self).buf(), ' ');
            assert(self.buf() =~= step_split_line(old(self).buf()));
        }
    }

    /// Enter: splits the cursor line, copying the original line's leading
    /// whitespace onto the new line; between a matching bracket pair it opens
    /// an indented blank line and puts the closing bracket on a third line.
    pub fn handle_enter(&mut self)
        requires
            old(self).wf(),
        ensures
            final(self).wf(),
            final(self).buf() == step_enter(old(self).buf()),
            edit_frame(*old(self), *final(self)),
    {
        let n = self.content.len();
        let l = self.cursor_l;
        let mut line = self.content.remove(l);
        let indent = leading_ws(&line);
        let is_pair = self.cursor_c > 0 && self.cursor_c < line.len() && bracket_pair(
            line[self.cursor_c - 1],
            line[self.cursor_c],
        );
        if is_pair {
            let mut last = leading_ws(&line);
            let mut suffix = line.split_off(self.cursor_c);
            self.content.insert(l, line);
            proof {
                lemma_doc_set(old(self).content@, l as int, self.content@[l as int]);
            }
            let ghost base = self.content@;
            last.append(&mut suffix);
            let ghost lastv = last@;
            let mut mid = indent;
            mid.push(' ');
            mid.push(' ');
            mid.push(' ');
            mid.push(' ');
            let ghost midv = mid@;
            let ci = mid.len();
            self.content.insert(l + 1, last);
            proof {
                lemma_doc_insert(base, l + 1, self.content@[l + 1]);
            }
            let ghost base2 = self.content@;
            self.content.insert(l + 1, mid);
            proof {
                lemma_doc_insert(base2, l + 1, self.content@[l + 1]);
            }
            self.cursor_l = l + 1;
            self.cursor_c = ci;
            proof {
                let b = old(self).buf();
                let linev = b.doc[b.line as int];
                lemma_ws_prefix_len(linev);
                let indentv = linev.take(ws_prefix_len(linev) as int);
                assert(midv =~= indentv + indent_unit());
                assert(lastv =~= indentv + linev.skip(b.col as int));
                let s = b.doc.update(b.line as int, linev.take(b.col as int));
                lemma_insert_swap(s, b.line as int + 1, lastv, midv);
                assert(self.doc() == s.insert(b.line as int + 1, lastv).insert(
                    b.line as int + 1,
                    midv,
                ));
                lemma_steps_wf(b, ' ');
                assert(self.buf() =~= step_enter(b));
            }
        } else {
            let mut suffix = line.split_off(self.cursor_c);
            self.content.insert(l, line);
            proof {
                lemma_doc_set(old(self).content@, l as int, self.content@[l as int]);
            }
            let ghost base = self.content@;
            let mut nl = indent;
            let ci = nl.len();
            nl.append(&mut suffix);
            self.content.insert(l + 1, nl);
            proof {
                lemma_doc_insert(base, l + 1, self.content@[l + 1]);
            }
            self.cursor_l = l + 1;
            self.cursor_c = ci;
            proof {
                let b = old(self).buf();
                lemma_ws_prefix_len(b.doc[b.line as int]);
                lemma_steps_wf(b, ' ');
                assert(self.buf() =~= step_enter(b));
            }
        }
    }

    /// Backspace: deletes the character before the cursor, or merges the
    /// cursor line onto the previous one when the cursor is at column zero.
    /// Nothing happens at the very start of the document.
    pub fn handle_backspace(&mut self)
        requires
            old(self).wf(),
        ensures
            final(self).wf(),
            final(self).buf() == step_backspace(old(self).buf()),
            edit_frame(*old(self), *final(self)),
    {
        if self.cursor_c > 0 {
            let l = self.cursor_l;
            let mut line = self.content.remove(l);
            line.remove(self.cursor_c - 1);
            self.content.insert(l, line);
            proof {
                lemma_doc_set(old(self).content@, l as int, self.content@[l as int]);
            }
            self.cursor_c -= 1;
            proof {
                lemma_steps_wf(old(self).buf(), ' ');
                assert(self.buf() =~= step_backspace(old(self).buf()));
            }
        } else if self.cursor_l > 0 {
            let l = self.cursor_l;
            let mut cur = self.content.remove(l);
            let mut prev = self.content.remove(l - 1);
            self.cursor_c = prev.len();
            prev.append(&mut cur);
            self.content.insert(l - 1, prev);
            self.cursor_l = l - 1;
            proof {
                let b = old(self).buf();
                let lm = b.line as int;
                old(self).content@.remove_ensures(lm);
                old(self).content@.remove(lm).remove_ensures(lm - 1);
                old(self).content@.remove(lm).remove(lm - 1).insert_ensures(
                    lm - 1,
                    self.content@[lm - 1],
                );
                b.doc.update(lm - 1, b.doc[lm - 1] + b.doc[lm]).remove_ensures(lm);
                assert(self.doc() =~= b.doc.update(lm - 1, b.doc[lm - 1] + b.doc[lm]).remove(lm));
                lemma_steps_wf(b, ' ');
                assert(self.buf() =~= step_backspace(b));
            }
        } else {
            proof {
                lemma_steps_wf(old(self).buf(), ' ');
            }
        }
    }

    /// Forward delete: deletes the character at the cursor, or merges the
    /// following line onto the cursor line when the cursor sits at the end of
    /// its line. Nothing happens at the very end of the document.
    pub fn handle_delete(&mut self)
        requires
            old(self).wf(),
        ensures
            final(self).wf(),
            final(self).buf() == step_delete(old(self).buf()),
            edit_frame(*old(self), *final(self)),
    {
        let n = self.content.len();
        let l = self.cursor_l;
        if self.cursor_c < self.content[l].len() {
            let mut line = self.content.remove(l);
            line.remove(self.cursor_c);
            self.content.insert(l, line);
            proof {
                lemma_doc_set(old(self).content@, l as int, self.content@[l as int]);
                lemma_steps_wf(old(self).buf(), ' ');
                assert(self.buf() =~= step_delete(old(self).buf()));
            }
        } else if l + 1 < n {
            let mut next = self.content.remove(l + 1);
            let mut cur = self.content.remove(l);
            cur.append(&mut next);
            self.content.insert(l, cur);
            proof {
                let b = old(self).buf();
                let lm = b.line as int;
                old(self).content@.remove_ensures(lm + 1);
                old(self).content@.remove(lm + 1).remove_ensures(lm);
                old(self).content@.remove(lm + 1).remove(lm).insert_ensures(lm, self.content@[lm]);
                b.doc.update(lm, b.doc[lm] + b.doc[lm + 1]).remove_ensures(lm + 1);
                assert(self.doc() =~= b.doc.update(lm, b.doc[lm] + b.doc[lm + 1]).remove(lm + 1));
                lemma_steps_wf(b, ' ');
                assert(self.buf() =~= step_delete(b));
            }
        } else {
            proof {
                lemma_steps_wf(old(self).buf(), ' ');
            }
        }
    }
}

/// Inserting `y` in front of a just-inserted `x` is the same as inserting
/// them in the other order at adjacent positions.
pub proof fn lemma_insert_swap<A>(s: Seq<A>, i: int, x: A, y: A)
    requires
        0 <= i <= s.len(),
    ensures
        s.insert(i, x).insert(i, y) =~= s.insert(i, y).insert(i + 1, x),
{
    s.insert_ensures(i, x);
    s.insert(i, x).insert_ensures(i, y);
    s.insert_ensures(i, y);
    s.insert(i, y).insert_ensures(i + 1, x);
}

} // verus!
