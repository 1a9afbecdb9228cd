//! Laws relating the editing operations, proved once over the [`BufView`]
//! step functions that the operations' contracts are stated with: inserting
//! characters and then backspacing the same number of times is the identity,
//! and backspace at the start of a freshly split line undoes the split.

use vstd::prelude::*;

use crate::edit::{lemma_steps_wf, step_backspace, step_insert_char, step_split_line};
use crate::editor::{wf_buf, BufView};
use crate::text::{join_lines, lemma_first_nl_unique, lines_of};

verus! {

/// No line of the document contains a newline character.
pub open spec fn newline_free(doc: Seq<Seq<char>>) -> bool {
    forall|i: int| 0 <= i < doc.len() ==> !(#[trigger] doc[i]).contains('\n')
}

/// Splitting a serialized document recovers its lines exactly, as long as no
/// line smuggles a newline and the last line is not empty (a trailing empty
/// line leaves no trace in the joined text). This is why pasting a fresh
/// copy reproduces the copied lines.
pub proof fn lemma_lines_of_join(doc: Seq<Seq<char>>)
    requires
        newline_free(doc),
        doc.len() > 0 ==> doc.last().len() > 0,
    ensures
        lines_of(join_lines(doc)) == doc,
    decreases doc.len(),
{
    if doc.len() == 0 {
        assert(lines_of(join_lines(doc)) =~= doc);
    } else if doc.len() == 1 {
        let s = doc[0];
        assert forall|k: int| 0 <= k < s.len() implies #[trigger] s[k] != '\n' by {
            assert(!doc[0].contains('\n'));
        }
        lemma_first_nl_unique(s, s.len() as int);
        assert(lines_of(s) =~= doc);
    } else {
        let h = doc[0];
        let t = join_lines(doc.skip(1));
        let s = h + seq!['\n'] + t;
        assert forall|k: int| 0 <= k < h.len() implies #[trigger] s[k] != '\n' by {
            assert(s[k] == h[k]);
            assert(!doc[0].contains('\n'));
        }
        assert(s[h.len() as int] == '\n');
        lemma_first_nl_unique(s, h.len() as int);
        assert forall|i: int| 0 <= i < doc.skip(1).len() implies !(
        #[trigger] doc.skip(1)[i]).contains('\n') by {
            assert(doc.skip(1)[i] == doc[i + 1]);
        }
        assert(doc.skip(1).last() == doc.last());
        lemma_lines_of_join(doc.skip(1));
        assert(s.take(h.len() as int) =~= h);
        assert(s.skip(h.len() as int + 1) =~= t);
        assert(lines_of(s) == seq![h] + doc.skip(1));
        assert(seq![h] + doc.skip(1) =~= doc);
    }
}

/// Backspace right after inserting a character removes exactly that
/// character: the buffer, cursor included, is back where it started.
pub proof fn lemma_insert_then_backspace(b: BufView, c: char)
    requires
        wf_buf(b),
    ensures
        step_backspace(step_insert_char(b, c)) == b,
{
    let l = b.line as int;
    let col = b.col as int;
    let line = b.doc[l];
    line.insert_ensures(col, c);
    line.insert(col, c).remove_ensures(col);
    assert(line.insert(col, c).remove(col) =~= line);
    assert(step_backspace(step_insert_char(b, c)).doc =~= b.doc);
    assert(step_backspace(step_insert_char(b, c)) =~= b);
}

/// The buffer after inserting the characters of `cs` one by one, each at the
/// cursor.
pub open spec fn steps_insert(b: BufView, cs: Seq<char>) -> BufView
    decreases cs.len(),
{
    if cs.len() == 0 {
        b
    } else {
        steps_insert(step_insert_char(b, cs[0]), cs.skip(1))
    }
}

/// The buffer after `n` consecutive backspaces.
pub open spec fn steps_backspace(b: BufView, n: nat) -> BufView
    decreases n,
{
    if n == 0 {
        b
    } else {
        steps_backspace(step_backspace(b), (n - 1) as nat)
    }
}

/// A run of inserts keeps the buffer well formed.
pub proof fn lemma_steps_insert_wf(b: BufView, cs: Seq<char>)
    requires
        wf_buf(b),
    ensures
        wf_buf(steps_insert(b, cs)),
    decreases cs.len(),
{
    if cs.len() > 0 {
        lemma_steps_wf(b, cs[0]);
        lemma_steps_insert_wf(step_insert_char(b, cs[0]), cs.skip(1));
    }
}

/// Peeling one backspace off the end of a run instead of the front.
pub proof fn lemma_steps_backspace_snoc(b: BufView, n: nat)
    ensures
        steps_backspace(b, n + 1) == step_backspace(steps_backspace(b, n)),
    decreases n,
{
    assert(steps_backspace(b, n + 1) == steps_backspace(step_backspace(b), n));
    if n > 0 {
        lemma_steps_backspace_snoc(step_backspace(b), (n - 1) as nat);
        assert(steps_backspace(b, n) == steps_backspace(step_backspace(b), (n - 1) as nat));
    }
}

/// Any sequence of character insertions followed by as many backspaces
/// restores the buffer — document and cursor — exactly.
pub proof fn lemma_insert_backspace_round_trip(b: BufView, cs: Seq<char>)
    requires
        wf_buf(b),
    ensures
        steps_backspace(steps_insert(b, cs), cs.len()) == b,
    decreases cs.len(),
{
    if cs.len() > 0 {
        let b1 = step_insert_char(b, cs[0]);
        lemma_steps_wf(b, cs[0]);
        lemma_insert_backspace_round_trip(b1, cs.skip(1));
        lemma_steps_backspace_snoc(steps_insert(b1, cs.skip(1)), (cs.len() - 1) as nat);
        lemma_insert_then_backspace(b, cs[0]);
    }
}

/// Backspace at the start of the new line right after a plain split merges
/// the two halves back: the single pre-split line and the cursor position
/// are restored exactly.
pub proof fn lemma_split_then_backspace(b: BufView)
    requires
        wf_buf(b),
    ensures
        step_backspace(step_split_line(b)) == b,
{
    let l = b.line as int;
    let col = b.col as int;
    let line = b.doc[l];
    let pre = line.take(col);
    let suf = line.skip(col);
    assert(pre + suf =~= line);
    let base = b.doc.update(l, pre);
    base.insert_ensures(l + 1, suf);
    let d1 = base.insert(l + 1, suf);
    assert(d1[l] == pre);
    let merged = d1.update(l, pre + suf);
    merged.remove_ensures(l + 1);
    assert(merged.remove(l + 1) =~= b.doc) by {
        assert forall|k: int| 0 <= k < b.doc.len() implies merged.remove(l + 1)[k] == b.doc[k] by {
            if k < l {
                assert(d1[k] == base[k]);
            } else if k > l {
                assert(merged.remove(l + 1)[k] == merged[k + 1]);
                assert(d1[k + 1] == base[k]);
            }
        }
    }
    assert(step_backspace(step_split_line(b)) =~= b);
}

} // verus!
