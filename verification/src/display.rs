//! Presentation helpers that are pure functions of the data: shortening an
//! entry name to a column budget, and the icon shown beside a file or
//! directory name, chosen by its suffix or its well-known name.

use vstd::prelude::*;

use crate::text::{chars_ends_with, chars_eq, copy_chars};

verus! {

/// `name` ends with the characters of `suf`.
pub open spec fn suffix_is(name: Seq<char>, suf: Seq<char>) -> bool {
    suf.len() <= name.len() && name.skip(name.len() - suf.len()) == suf
}

/// `s` cut down to `max` columns: unchanged when it fits, otherwise its
/// first `max - 1` characters with an ellipsis mark, or the mark alone when
/// even that does not fit.
pub open spec fn truncated(s: Seq<char>, max: nat) -> Seq<char> {
    if s.len() <= max {
        s
    } else if max > 1 {
        s.take(max - 1).push('\u{2026}')
    } else {
        seq!['\u{2026}']
    }
}

/// Shortens an entry name to at most `max_width` display cells, marking a
/// cut with an ellipsis.
pub fn truncate_string(s: &Vec<char>, max_width: usize) -> (r: Vec<char>)
    ensures
        r@ == truncated(s@, max_width as nat),
{
    if s.len() <= max_width {
        copy_chars(s)
    } else if max_width > 1 {
        let mut r: Vec<char> = Vec::new();
        let mut i: usize = 0;
        while i < max_width - 1
            invariant
                i <= max_width - 1,
                max_width - 1 <= s@.len(),
                r@ == s@.take(i as int),
            decreases max_width - 1 - i,
        {
            r.push(s[i]);
            i += 1;
            proof {
                assert(s@.take(i as int) =~= s@.take(i - 1).push(s@[i - 1]));
            }
        }
        r.push('\u{2026}');
        r
    } else {
        let mut r: Vec<char> = Vec::new();
        r.push('\u{2026}');
        proof {
            assert(r@ =~= seq!['\u{2026}']);
        }
        r
    }
}

/// The icon shown beside a file name, by its suffix.
pub open spec fn spec_file_icon(name: Seq<char>) -> Seq<char> {
    if suffix_is(name, seq!['.', 'r', 's']) {
        "🦀"@
    } else if suffix_is(name, seq!['.', 'g', 'o']) {
        "🐹"@
    } else if suffix_is(name, seq!['.', 'c']) {
        "C"@
    } else if suffix_is(name, seq!['.', 'c', 'p', 'p']) {
        "C++"@
    } else if suffix_is(name, seq!['.', 'h']) {
        "H"@
    } else if suffix_is(name, seq!['.', 'p', 'y']) {
        "🐍"@
    } else if suffix_is(name, seq!['.', 'r']) {
        "𝐑"@
    } else if suffix_is(name, seq!['.', 'j', 's']) {
        "JS"@
    } else if suffix_is(name, seq!['.', 't', 's']) {
        "TS"@
    } else if suffix_is(name, seq!['.', 'h', 't', 'm', 'l']) {
        "🌐"@
    } else if suffix_is(name, seq!['.', 'c', 's', 's']) {
        "🎨"@
    } else if suffix_is(name, seq!['.', 'm', 'd']) {
        "\u{E609}"@
    } else if suffix_is(name, seq!['.', 'j', 's', 'o', 'n']) {
        "{}"@
    } else if suffix_is(name, seq!['.', 't', 'o', 'm', 'l']) || suffix_is(name, seq!['.', 'y', 'a', 'm', 'l']) || suffix_is(name, seq!['.', 'c', 'o', 'n', 'f']) || suffix_is(name, seq!['.', 'c', 'o', 'n', 'f', 'i', 'g']) {
        "⚙\u{FE0F}"@
    } else if suffix_is(name, seq!['.', 's', 'h']) {
        ">_"@
    } else if suffix_is(name, seq!['.', 't', 'x', 't']) {
        "\u{F15C}"@
    } else if suffix_is(name, seq!['.', 's', 'q', 'l']) {
        "\u{F1C0}"@
    } else if suffix_is(name, seq!['.', 'j', 'a', 'v', 'a']) {
        "☕"@
    } else {
        "\u{1F4C4}"@
    }
}

/// Executable twin of [`spec_file_icon`].
pub fn file_icon(name: &Vec<char>) -> (r: &'static str)
    ensures
        r@ == spec_file_icon(name@),
{
    if chars_ends_with(name, &['.', 'r', 's']) {
        "🦀"
    } else if chars_ends_with(name, &['.', 'g', 'o']) {
        "🐹"
    } else if chars_ends_with(name, &['.', 'c']) {
        "C"
    } else if chars_ends_with(name, &['.', 'c', 'p', 'p']) {
        "C++"
    } else if chars_ends_with(name, &['.', 'h']) {
        "H"
    } else if chars_ends_with(name, &['.', 'p', 'y']) {
        "🐍"
    } else if chars_ends_with(name, &['.', 'r']) {
        "𝐑"
    } else if chars_ends_with(name, &['.', 'j', 's']) {
        "JS"
    } else if chars_ends_with(name, &['.', 't', 's']) {
        "TS"
    } else if chars_ends_with(name, &['.', 'h', 't', 'm', 'l']) {
        "🌐"
    } else if chars_ends_with(name, &['.', 'c', 's', 's']) {
        "🎨"
    } else if chars_ends_with(name, &['.', 'm', 'd']) {
        "\u{E609}"
    } else if chars_ends_with(name, &['.', 'j', 's', 'o', 'n']) {
        "{}"
    } else if chars_ends_with(name, &['.', 't', 'o', 'm', 'l']) || chars_ends_with(name, &['.', 'y', 'a', 'm', 'l']) || chars_ends_with(name, &['.', 'c', 'o', 'n', 'f']) || chars_ends_with(name, &['.', 'c', 'o', 'n', 'f', 'i', 'g']) {
        "⚙\u{FE0F}"
    } else if chars_ends_with(name, &['.', 's', 'h']) {
        ">_"
    } else if chars_ends_with(name, &['.', 't', 'x', 't']) {
        "\u{F15C}"
    } else if chars_ends_with(name, &['.', 's', 'q', 'l']) {
        "\u{F1C0}"
    } else if chars_ends_with(name, &['.', 'j', 'a', 'v', 'a']) {
        "☕"
    } else {
        "\u{1F4C4}"
    }
}

/// The icon shown beside a directory name, for a few well-known names.
pub open spec fn spec_folder_icon(name: Seq<char>) -> Seq<char> {
    if name == seq!['D', 'o', 'w', 'n', 'l', 'o', 'a', 'd', 's'] {
        "📥"@
    } else if name == seq!['D', 'e', 's', 'k', 't', 'o', 'p'] {
        "🖥\u{FE0F}"@
    } else if name == seq!['D', 'o', 'c', 'u', 'm', 'e', 'n', 't', 's'] || name == seq!['D', 'o', 'c', 'u', 'm', 'e', 'n', 't', 'o', 's'] {
        "📄"@
    } else if name == seq!['D', 'e', 'v'] || name == seq!['d', 'e', 'v'] {
        "</>"@
    } else if name == seq!['P', 'r', 'o', 'j', 'e', 'c', 't', 's'] || name == seq!['p', 'r', 'o', 'j', 'e', 'c', 't', 's'] {
        "🗂\u{FE0F}"@
    } else if name == seq!['P', 'i', 'c', 't', 'u', 'r', 'e', 's'] || name == seq!['I', 'm', 'a', 'g', 'e', 'n', 's'] {
        "🖼\u{FE0F}"@
    } else if name == seq!['M', 'u', 's', 'i', 'c'] || name == seq!['M', 'ú', 's', 'i', 'c', 'a'] {
        "🎵"@
    } else if name == seq!['V', 'i', 'd', 'e', 'o', 's'] || name == seq!['V', 'í', 'd', 'e', 'o', 's'] {
        "🎥"@
    } else if name == seq!['.', 'c', 'o', 'n', 'f', 'i', 'g'] {
        "⚙\u{FE0F}"@
    } else if name == seq!['.', 'g', 'i', 't'] {
        "🗃\u{FE0F}"@
    } else if name == seq!['n', 'o', 'd', 'e', '_', 'm', 'o', 'd', 'u', 'l', 'e', 's'] {
        "📦"@
    } else if name == seq!['t', 'a', 'r', 'g', 'e', 't'] {
        "🛠\u{FE0F}"@
    } else {
        "\u{1F4C1}"@
    }
}

/// Executable twin of [`spec_folder_icon`].
pub fn folder_icon(name: &Vec<char>) -> (r: &'static str)
    ensures
        r@ == spec_folder_icon(name@),
{
    if chars_eq(name, &['D', 'o', 'w', 'n', 'l', 'o', 'a', 'd', 's']) {
        "📥"
    } else if chars_eq(name, &['D', 'e', 's', 'k', 't', 'o', 'p']) {
        "🖥\u{FE0F}"
    } else if chars_eq(name, &['D', 'o', 'c', 'u', 'm', 'e', 'n', 't', 's']) || chars_eq(name, &['D', 'o', 'c', 'u', 'm', 'e', 'n', 't', 'o', 's']) {
        "📄"
    } else if chars_eq(name, &['D', 'e', 'v']) || chars_eq(name, &['d', 'e', 'v']) {
        "</>"
    } else if chars_eq(name, &['P', 'r', 'o', 'j', 'e', 'c', 't', 's']) || chars_eq(name, &['p', 'r', 'o', 'j', 'e', 'c', 't', 's']) {
        "🗂\u{FE0F}"
    } else if chars_eq(name, &['P', 'i', 'c', 't', 'u', 'r', 'e', 's']) || chars_eq(name, &['I', 'm', 'a', 'g', 'e', 'n', 's']) {
        "🖼\u{FE0F}"
    } else if chars_eq(name, &['M', 'u', 's', 'i', 'c']) || chars_eq(name, &['M', 'ú', 's', 'i', 'c', 'a']) {
        "🎵"
    } else if chars_eq(name, &['V', 'i', 'd', 'e', 'o', 's']) || chars_eq(name, &['V', 'í', 'd', 'e', 'o', 's']) {
        "🎥"
    } else if chars_eq(name, &['.', 'c', 'o', 'n', 'f', 'i', 'g']) {
        "⚙\u{FE0F}"
    } else if chars_eq(name, &['.', 'g', 'i', 't']) {
        "🗃\u{FE0F}"
    } else if chars_eq(name, &['n', 'o', 'd', 'e', '_', 'm', 'o', 'd', 'u', 'l', 'e', 's']) {
        "📦"
    } else if chars_eq(name, &['t', 'a', 'r', 'g', 'e', 't']) {
        "🛠\u{FE0F}"
    } else {
        "\u{1F4C1}"
    }
}

} // verus!
