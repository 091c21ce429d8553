//! Verified text building: the bounded file-preview snippet.

use vstd::prelude::*;
use vstd::string::StringExecFns;

verus! {

/// Most lines a file preview shows.
pub const PREVIEW_MAX_LINES: usize = 128;

/// The text made of the given lines, each followed by one newline.
pub open spec fn joined_lines(lines: Seq<Seq<char>>) -> Seq<char>
    decreases lines.len(),
{
    if lines.len() == 0 {
        Seq::empty()
    } else {
        joined_lines(lines.drop_last()) + lines.last() + seq!['\n']
    }
}

/// The lines a preview keeps: all of them, up to `max`.
pub open spec fn head_lines(lines: Seq<Seq<char>>, max: nat) -> Seq<Seq<char>> {
    if lines.len() <= max {
        lines
    } else {
        lines.take(max as int)
    }
}

/// Build the preview snippet of a file given as its lines: the first
/// `PREVIEW_MAX_LINES` lines (or all of them, if the file is shorter), each
/// followed by one newline.
pub fn snippet_from_lines(lines: &Vec<String>) -> (r: String)
    ensures
        r@ == joined_lines(head_lines(lines.deep_view(), PREVIEW_MAX_LINES as nat)),
{
    let n = if lines.len() <= PREVIEW_MAX_LINES {
        lines.len()
    } else {
        PREVIEW_MAX_LINES
    };
    let mut out = String::new();
    let mut i: usize = 0;
    while i < n
        invariant
            i <= n <= lines.len(),
            n == head_lines(lines.deep_view(), PREVIEW_MAX_LINES as nat).len(),
            out@ == joined_lines(lines.deep_view().take(i as int)),
        decreases n - i,
    {
        out.append(lines[i].as_str());
        out.append("\n");
        proof {
            reveal_strlit("\n");
            assert(("\n")@ =~= seq!['\n']);
            assert(lines.deep_view().take((i + 1) as int).drop_last() =~= lines.deep_view().take(
                i as int,
            ));
            assert(lines.deep_view().take((i + 1) as int).last() == lines.deep_view()[i as int]);
        }
        i = i + 1;
    }
    proof {
        assert(lines.deep_view().take(n as int) =~= head_lines(
            lines.deep_view(),
            PREVIEW_MAX_LINES as nat,
        ));
    }
    out
}

} // verus!
