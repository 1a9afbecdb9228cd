//! Helpers on lines of characters: whitespace prefixes, searching for a
//! newline, joining and splitting documents, comparing against literal
//! character patterns, and trimming. Lines are `Vec<char>`, viewed as
//! `Seq<char>`.

use vstd::prelude::*;

verus! {

/// The whitespace characters recognized when computing indentation and when
/// trimming command arguments: the ASCII blank characters.
pub open spec fn is_ws(c: char) -> bool {
    c == ' ' || c == '\t' || c == '\n' || c == '\r'
}

/// Executable twin of [`is_ws`].
pub fn is_ws_char(c: char) -> (r: bool)
    ensures
        r == is_ws(c),
{
    c == ' ' || c == '\t' || c == '\n' || c == '\r'
}

/// Length of the longest whitespace prefix of `s`.
pub open spec fn ws_prefix_len(s: Seq<char>) -> nat
    decreases s.len(),
{
    if s.len() > 0 && is_ws(s[0]) {
        (1 + ws_prefix_len(s.skip(1))) as nat
    } else {
        0
    }
}

/// `ws_prefix_len` is the unique index bounded by the length such that
/// everything before it is whitespace and the character at it (if any) is not.
pub proof fn lemma_ws_prefix_len(s: Seq<char>)
    ensures
        ws_prefix_len(s) <= s.len(),
        forall|k: int| 0 <= k < ws_prefix_len(s) ==> is_ws(#[trigger] s[k]),
        ws_prefix_len(s) < s.len() ==> !is_ws(s[ws_prefix_len(s) as int]),
    decreases s.len(),
{
    if s.len() > 0 && is_ws(s[0]) {
        lemma_ws_prefix_len(s.skip(1));
        assert forall|k: int| 0 <= k < ws_prefix_len(s) implies is_ws(#[trigger] s[k]) by {
            if k > 0 {
                assert(s[k] == s.skip(1)[k - 1]);
            }
        }
        if ws_prefix_len(s) < s.len() {
            assert(s[ws_prefix_len(s) as int] == s.skip(1)[ws_prefix_len(s.skip(1)) as int]);
        }
    }
}

/// Any index with the property stated by [`lemma_ws_prefix_len`] is
/// `ws_prefix_len(s)` itself.
pub proof fn lemma_ws_prefix_len_unique(s: Seq<char>, n: int)
    requires
        0 <= n <= s.len(),
        forall|k: int| 0 <= k < n ==> is_ws(#[trigger] s[k]),
        n < s.len() ==> !is_ws(s[n]),
    ensures
        n == ws_prefix_len(s),
{
    lemma_ws_prefix_len(s);
    if n < ws_prefix_len(s) {
        assert(is_ws(s[n]));
    }
    if ws_prefix_len(s) < n {
        assert(is_ws(s[ws_prefix_len(s) as int]));
    }
}

/// The leading-whitespace prefix of `line`: its indentation.
pub fn leading_ws(line: &Vec<char>) -> (r: Vec<char>)
    ensures
        r@ == line@.take(ws_prefix_len(line@) as int),
{
    let mut i: usize = 0;
    while i < line.len() && is_ws_char(line[i])
        invariant
            i <= line@.len(),
            forall|k: int| 0 <= k < i ==> is_ws(#[trigger] line@[k]),
        decreases line@.len() - i,
    {
        i += 1;
    }
    proof {
        lemma_ws_prefix_len_unique(line@, i as int);
    }
    let mut r: Vec<char> = Vec::new();
    let mut j: usize = 0;
    while j < i
        invariant
            j <= i,
            i <= line@.len(),
            r@ == line@.take(j as int),
        decreases i - j,
    {
        r.push(line[j]);
        j += 1;
        proof {
            assert(line@.take(j as int) =~= line@.take(j - 1).push(line@[j - 1]));
        }
    }
    r
}

/// Length of the longest whitespace suffix of `s`.
pub open spec fn ws_suffix_len(s: Seq<char>) -> nat
    decreases s.len(),
{
    if s.len() > 0 && is_ws(s[s.len() - 1]) {
        (1 + ws_suffix_len(s.take(s.len() - 1))) as nat
    } else {
        0
    }
}

/// `ws_suffix_len` counts exactly the whitespace characters at the end of `s`.
pub proof fn lemma_ws_suffix_len(s: Seq<char>)
    ensures
        ws_suffix_len(s) <= s.len(),
        forall|k: int| s.len() - ws_suffix_len(s) <= k < s.len() ==> is_ws(#[trigger] s[k]),
        ws_suffix_len(s) < s.len() ==> !is_ws(s[s.len() - ws_suffix_len(s) - 1]),
    decreases s.len(),
{
    if s.len() > 0 && is_ws(s[s.len() - 1]) {
        let t = s.take(s.len() - 1);
        lemma_ws_suffix_len(t);
        assert forall|k: int| s.len() - ws_suffix_len(s) <= k < s.len() implies is_ws(
            #[trigger] s[k],
        ) by {
            if k < s.len() - 1 {
                assert(s[k] == t[k]);
            }
        }
        if ws_suffix_len(s) < s.len() {
            assert(s[s.len() - ws_suffix_len(s) - 1] == t[t.len() - ws_suffix_len(t) - 1]);
        }
    }
}

/// Any count with the property stated by [`lemma_ws_suffix_len`] is
/// `ws_suffix_len(s)` itself.
pub proof fn lemma_ws_suffix_len_unique(s: Seq<char>, n: int)
    requires
        0 <= n <= s.len(),
        forall|k: int| s.len() - n <= k < s.len() ==> is_ws(#[trigger] s[k]),
        n < s.len() ==> !is_ws(s[s.len() - n - 1]),
    ensures
        n == ws_suffix_len(s),
{
    lemma_ws_suffix_len(s);
    if n < ws_suffix_len(s) {
        assert(is_ws(s[s.len() - n - 1]));
    }
    if ws_suffix_len(s) < n {
        assert(is_ws(s[s.len() - ws_suffix_len(s) - 1]));
    }
}

/// `s` with leading and trailing whitespace removed.
pub open spec fn trim_spec(s: Seq<char>) -> Seq<char> {
    let t = s.skip(ws_prefix_len(s) as int);
    t.take(t.len() - ws_suffix_len(t))
}

/// The suffix of `v` from index `from` on, with surrounding whitespace
/// removed; used on command arguments such as the path after `:e`.
pub fn trim_tail(v: &Vec<char>, from: usize) -> (r: Vec<char>)
    requires
        from <= v@.len(),
    ensures
        r@ == trim_spec(v@.skip(from as int)),
{
    let ghost t0 = v@.skip(from as int);
    let mut start: usize = from;
    while start < v.len() && is_ws_char(v[start])
        invariant
            from <= start <= v@.len(),
            forall|k: int| from <= k < start ==> is_ws(#[trigger] v@[k]),
        decreases v@.len() - start,
    {
        start += 1;
    }
    proof {
        assert forall|k: int| 0 <= k < start - from implies is_ws(#[trigger] t0[k]) by {
            assert(t0[k] == v@[from + k]);
        }
        if start < v@.len() {
            assert(t0[start - from] == v@[start as int]);
        }
        lemma_ws_prefix_len_unique(t0, start - from);
    }
    let ghost t = t0.skip(start - from);
    proof {
        assert(t =~= v@.skip(start as int));
    }
    let mut end: usize = v.len();
    while end > start && is_ws_char(v[end - 1])
        invariant
            start <= end <= v@.len(),
            forall|k: int| end <= k < v@.len() ==> is_ws(#[trigger] v@[k]),
        decreases end,
    {
        end -= 1;
    }
    proof {
        assert forall|k: int| t.len() - (v@.len() - end) <= k < t.len() implies is_ws(
            #[trigger] t[k],
        ) by {
            assert(t[k] == v@[start + k]);
        }
        if end > start {
            assert(t[t.len() - (v@.len() - end) - 1] == v@[end - 1]);
        }
        lemma_ws_suffix_len_unique(t, v@.len() - end);
    }
    let mut r: Vec<char> = Vec::new();
    let mut j: usize = start;
    while j < end
        invariant
            start <= j <= end <= v@.len(),
            r@ == v@.subrange(start as int, j as int),
        decreases end - j,
    {
        r.push(v[j]);
        j += 1;
        proof {
            assert(v@.subrange(start as int, j as int) =~= v@.subrange(
                start as int,
                j - 1,
            ).push(v@[j - 1]));
        }
    }
    proof {
        assert(r@ =~= t.take(t.len() - ws_suffix_len(t)));
        assert(t0.skip(ws_prefix_len(t0) as int) == t);
    }
    r
}

/// A fresh vector with the same characters.
pub fn copy_chars(v: &Vec<char>) -> (r: Vec<char>)
    ensures
        r@ == v@,
{
    let r = v.clone();
    proof {
        assert(r@ =~= v@);
    }
    r
}

/// Whether `a` holds exactly the characters of `b`.
pub fn chars_eq(a: &Vec<char>, b: &[char]) -> (r: bool)
    ensures
        r == (a@ =~= b@),
{
    if a.len() != b.len() {
        return false;
    }
    let mut i: usize = 0;
    while i < a.len()
        invariant
            i <= a@.len(),
            a@.len() == b@.len(),
            forall|k: int| 0 <= k < i ==> a@[k] == b@[k],
        decreases a@.len() - i,
    {
        if a[i] != b[i] {
            return false;
        }
        i += 1;
    }
    true
}

/// Whether `a` begins with the characters of `p`.
pub fn chars_starts_with(a: &Vec<char>, p: &[char]) -> (r: bool)
    ensures
        r == (p@.len() <= a@.len() && a@.take(p@.len() as int) =~= p@),
{
    if a.len() < p.len() {
        return false;
    }
    let mut i: usize = 0;
    while i < p.len()
        invariant
            i <= p@.len(),
            p@.len() <= a@.len(),
            forall|k: int| 0 <= k < i ==> a@[k] == p@[k],
        decreases p@.len() - i,
    {
        if a[i] != p[i] {
            return false;
        }
        i += 1;
    }
    assert(a@.take(p@.len() as int) =~= p@);
    true
}

/// Whether `a` ends with the characters of `s`.
pub fn chars_ends_with(a: &Vec<char>, s: &[char]) -> (r: bool)
    ensures
        r == (s@.len() <= a@.len() && a@.skip(a@.len() - s@.len()) =~= s@),
{
    let n = a.len();
    let m = s.len();
    if n < m {
        return false;
    }
    let off: usize = n - m;
    let mut i: usize = 0;
    while i < m
        invariant
            i <= m,
            m <= n,
            n == a@.len(),
            m == s@.len(),
            off == n - m,
            forall|k: int| 0 <= k < i ==> a@[off + k] == s@[k],
        decreases m - i,
    {
        if a[off + i] != s[i] {
            assert(a@.skip(off as int)[i as int] != s@[i as int]);
            return false;
        }
        i += 1;
    }
    assert(a@.skip(off as int) =~= s@);
    true
}

/// Replacing line `i` by first removing it and then inserting the new line at
/// the same index is, seen through the view, a pointwise update.
pub proof fn lemma_doc_set(orig: Seq<Vec<char>>, i: int, v: Vec<char>)
    requires
        0 <= i < orig.len(),
    ensures
        doc_view(orig.remove(i).insert(i, v)) =~= doc_view(orig).update(i, v@),
{
    orig.remove_ensures(i);
    orig.remove(i).insert_ensures(i, v);
}

/// Inserting a line commutes with taking the view.
pub proof fn lemma_doc_insert(orig: Seq<Vec<char>>, i: int, v: Vec<char>)
    requires
        0 <= i <= orig.len(),
    ensures
        doc_view(orig.insert(i, v)) =~= doc_view(orig).insert(i, v@),
{
    orig.insert_ensures(i, v);
    doc_view(orig).insert_ensures(i, v@);
}

/// The document serialized as one character sequence: lines joined by `'\n'`,
/// with no trailing newline.
pub open spec fn join_lines(doc: Seq<Seq<char>>) -> Seq<char>
    decreases doc.len(),
{
    if doc.len() == 0 {
        Seq::empty()
    } else if doc.len() == 1 {
        doc[0]
    } else {
        doc[0] + seq!['\n'] + join_lines(doc.skip(1))
    }
}

/// Appending one more line to a joined document appends a separator and the
/// line (no separator when the document was empty).
pub proof fn lemma_join_lines_push(doc: Seq<Seq<char>>, line: Seq<char>)
    ensures
        doc.len() == 0 ==> join_lines(doc.push(line)) == line,
        doc.len() > 0 ==> join_lines(doc.push(line)) == join_lines(doc) + seq!['\n'] + line,
    decreases doc.len(),
{
    if doc.len() == 0 {
        assert(join_lines(doc.push(line)) == doc.push(line)[0]);
        assert(doc.push(line)[0] == line);
    } else {
        lemma_join_lines_push(doc.skip(1), line);
        assert(doc.push(line).skip(1) =~= doc.skip(1).push(line));
        assert(doc.push(line)[0] == doc[0]);
        if doc.len() == 1 {
            assert(join_lines(doc.skip(1)) =~= Seq::<char>::empty());
            assert(join_lines(doc) + seq!['\n'] + line =~= doc[0] + seq!['\n'] + line);
        } else {
            assert((doc[0] + seq!['\n'] + (join_lines(doc.skip(1)) + seq!['\n'] + line)) =~= (doc[0]
                + seq!['\n'] + join_lines(doc.skip(1)) + seq!['\n'] + line));
        }
    }
}

/// Index of the first `'\n'` in `s`, or `s.len()` if there is none.
pub open spec fn first_nl(s: Seq<char>) -> nat
    decreases s.len(),
{
    if s.len() == 0 {
        0
    } else if s[0] == '\n' {
        0
    } else {
        (1 + first_nl(s.skip(1))) as nat
    }
}

/// `first_nl` points at the first newline: nothing before it is a newline,
/// and it is either a newline or the end of the sequence.
pub proof fn lemma_first_nl(s: Seq<char>)
    ensures
        first_nl(s) <= s.len(),
        forall|k: int| 0 <= k < first_nl(s) ==> #[trigger] s[k] != '\n',
        first_nl(s) < s.len() ==> s[first_nl(s) as int] == '\n',
    decreases s.len(),
{
    if s.len() > 0 && s[0] != '\n' {
        lemma_first_nl(s.skip(1));
        assert forall|k: int| 0 <= k < first_nl(s) implies #[trigger] s[k] != '\n' by {
            if k > 0 {
                assert(s[k] == s.skip(1)[k - 1]);
            }
        }
        if first_nl(s) < s.len() {
            assert(s[first_nl(s) as int] == s.skip(1)[first_nl(s.skip(1)) as int]);
        }
    }
}

/// Any index with the property stated by [`lemma_first_nl`] is `first_nl(s)`.
pub proof fn lemma_first_nl_unique(s: Seq<char>, n: int)
    requires
        0 <= n <= s.len(),
        forall|k: int| 0 <= k < n ==> #[trigger] s[k] != '\n',
        n < s.len() ==> s[n] == '\n',
    ensures
        n == first_nl(s),
{
    lemma_first_nl(s);
    if n < first_nl(s) {
        assert(s[n] != '\n');
    }
    if first_nl(s) < n {
        assert(s[first_nl(s) as int] != '\n');
    }
}

/// The lines of a character sequence, split at `'\n'`: a final empty segment
/// after a trailing newline is dropped, and the empty sequence has no lines.
/// `lemma_lines_of_join` in [`crate::laws`] proves this inverts
/// [`join_lines`] whenever no line holds a newline and the last line is not
/// empty.
pub open spec fn lines_of(s: Seq<char>) -> Seq<Seq<char>>
    decreases s.len(),
{
    if s.len() == 0 {
        Seq::empty()
    } else {
        let i = first_nl(s) as int;
        if i >= s.len() {
            seq![s]
        } else {
            seq![s.take(i)] + lines_of(s.skip(i + 1))
        }
    }
}

/// The view of a document: each line as a character sequence.
pub open spec fn doc_view(doc: Seq<Vec<char>>) -> Seq<Seq<char>> {
    doc.map_values(|l: Vec<char>| l@)
}

/// Joins the document's lines with `'\n'`, with no trailing newline: the
/// persisted file format.
pub fn join_text(doc: &Vec<Vec<char>>) -> (r: Vec<char>)
    ensures
        r@ == join_lines(doc_view(doc@)),
{
    let ghost dv = doc_view(doc@);
    let mut r: Vec<char> = Vec::new();
    let mut i: usize = 0;
    while i < doc.len()
        invariant
            i <= doc@.len(),
            dv == doc_view(doc@),
            r@ == join_lines(dv.take(i as int)),
        decreases doc@.len() - i,
    {
        proof {
            lemma_join_lines_push(dv.take(i as int), dv[i as int]);
            assert(dv.take(i + 1) =~= dv.take(i as int).push(dv[i as int]));
        }
        if i > 0 {
            r.push('\n');
        }
        let line = &doc[i];
        let ghost base = r@;
        let mut k: usize = 0;
        while k < line.len()
            invariant
                k <= line@.len(),
                r@ == base + line@.take(k as int),
            decreases line@.len() - k,
        {
            r.push(line[k]);
            k += 1;
            proof {
                assert(line@.take(k as int) =~= line@.take(k - 1).push(line@[k - 1]));
            }
        }
        proof {
            assert(line@.take(line@.len() as int) =~= line@);
        }
        i += 1;
    }
    proof {
        assert(dv.take(dv.len() as int) =~= dv);
    }
    r
}

/// Joins the lines `s..=e` of the document with `'\n'`, with no trailing
/// newline: the text captured by copying that inclusive line range.
pub fn join_range(doc: &Vec<Vec<char>>, s: usize, e: usize) -> (r: Vec<char>)
    requires
        s <= e < doc@.len(),
    ensures
        r@ == join_lines(doc_view(doc@).subrange(s as int, e as int + 1)),
{
    let ghost dv = doc_view(doc@);
    let n = doc.len();
    let mut r: Vec<char> = Vec::new();
    let mut i: usize = s;
    proof {
        assert(dv.subrange(s as int, s as int) =~= Seq::<Seq<char>>::empty());
    }
    while i <= e
        invariant
            s <= i <= e + 1,
            e < n,
            n == doc@.len(),
            dv == doc_view(doc@),
            r@ == join_lines(dv.subrange(s as int, i as int)),
        decreases e + 1 - i,
    {
        proof {
            lemma_join_lines_push(dv.subrange(s as int, i as int), dv[i as int]);
            assert(dv.subrange(s as int, i as int + 1) =~= dv.subrange(s as int, i as int).push(
                dv[i as int],
            ));
        }
        if i > s {
            r.push('\n');
        }
        let line = &doc[i];
        let ghost base = r@;
        let mut k: usize = 0;
        while k < line.len()
            invariant
                k <= line@.len(),
                r@ == base + line@.take(k as int),
            decreases line@.len() - k,
        {
            r.push(line[k]);
            k += 1;
            proof {
                assert(line@.take(k as int) =~= line@.take(k - 1).push(line@[k - 1]));
            }
        }
        proof {
            assert(line@.take(line@.len() as int) =~= line@);
            if i == s {
                assert(dv.subrange(s as int, s as int + 1) =~= seq![dv[s as int]]);
                assert(join_lines(seq![dv[s as int]]) == dv[s as int]);
                assert(base + line@.take(line@.len() as int) =~= dv[s as int]);
            }
        }
        i += 1;
    }
    r
}

/// Splits a character sequence into lines at `'\n'`, exactly as [`lines_of`]
/// describes; used when pasting the clipboard back into the document.
pub fn split_text(s: &Vec<char>) -> (r: Vec<Vec<char>>)
    ensures
        doc_view(r@) == lines_of(s@),
{
    let mut out: Vec<Vec<char>> = Vec::new();
    let mut cur: Vec<char> = Vec::new();
    let mut j: usize = 0;
    let mut i: usize = 0;
    proof {
        assert(s@.skip(0) =~= s@);
        assert(doc_view(out@) =~= Seq::<Seq<char>>::empty());
        assert(Seq::<Seq<char>>::empty() + lines_of(s@) =~= lines_of(s@));
    }
    while i < s.len()
        invariant
            j <= i <= s@.len(),
            cur@ == s@.subrange(j as int, i as int),
            forall|k: int| j <= k < i ==> #[trigger] s@[k] != '\n',
            lines_of(s@) == doc_view(out@) + lines_of(s@.skip(j as int)),
        decreases s@.len() - i,
    {
        if s[i] == '\n' {
            proof {
                let t = s@.skip(j as int);
                assert forall|k: int| 0 <= k < i - j implies #[trigger] t[k] != '\n' by {
                    assert(t[k] == s@[j + k]);
                }
                assert(t[i - j] == s@[i as int]);
                lemma_first_nl_unique(t, i - j);
                assert(t.take(i - j) =~= cur@);
                assert(t.skip(i - j + 1) =~= s@.skip(i + 1));
                assert(doc_view(out@.push(cur)) =~= doc_view(out@) + seq![cur@]);
                assert(doc_view(out@) + (seq![cur@] + lines_of(s@.skip(i + 1))) =~= doc_view(
                    out@.push(cur),
                ) + lines_of(s@.skip(i + 1)));
            }
            out.push(cur);
            cur = Vec::new();
            i += 1;
            j = i;
        } else {
            cur.push(s[i]);
            i += 1;
            proof {
                assert(s@.subrange(j as int, i as int) =~= s@.subrange(j as int, i - 1).push(
                    s@[i - 1],
                ));
            }
        }
    }
    proof {
        let t = s@.skip(j as int);
        assert forall|k: int| 0 <= k < t.len() implies #[trigger] t[k] != '\n' by {
            assert(t[k] == s@[j + k]);
        }
        lemma_first_nl_unique(t, t.len() as int);
        assert(t =~= cur@);
    }
    if cur.len() > 0 {
        proof {
            assert(lines_of(cur@) =~= seq![cur@]);
        }
        let ghost out_pre = out@;
        out.push(cur);
        proof {
            assert(doc_view(out@) =~= doc_view(out_pre) + seq![cur@]);
        }
    } else {
        proof {
            assert(lines_of(cur@) =~= Seq::<Seq<char>>::empty());
            assert(doc_view(out@) + lines_of(cur@) =~= doc_view(out@));
        }
    }
    out
}

/// The closing character paired with an opening bracket or quote, if any.
pub open spec fn close_of(c: char) -> Option<char> {
    if c == '(' {
        Some(')')
    } else if c == '{' {
        Some('}')
    } else if c == '[' {
        Some(']')
    } else if c == '"' {
        Some('"')
    } else if c == '\'' {
        Some('\'')
    } else {
        None
    }
}

/// Executable twin of [`close_of`].
pub fn close_for(c: char) -> (r: Option<char>)
    ensures
        r == close_of(c),
{
    if c == '(' {
        Some(')')
    } else if c == '{' {
        Some('}')
    } else if c == '[' {
        Some(']')
    } else if c == '"' {
        Some('"')
    } else if c == '\'' {
        Some('\'')
    } else {
        None
    }
}

/// Whether `a` and `b` are a matching open/close bracket pair; quotes do not
/// count here, only the three bracket kinds that trigger indented splitting.
pub open spec fn is_bracket_pair(a: char, b: char) -> bool {
    (a == '{' && b == '}') || (a == '[' && b == ']') || (a == '(' && b == ')')
}

/// Executable twin of [`is_bracket_pair`].
pub fn bracket_pair(a: char, b: char) -> (r: bool)
    ensures
        r == is_bracket_pair(a, b),
{
    (a == '{' && b == '}') || (a == '[' && b == ']') || (a == '(' && b == ')')
}

} // verus!
