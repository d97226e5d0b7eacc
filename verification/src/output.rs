//! Rendering of one output line per surviving record: language, channel URL
//! with the display name padded to a fixed width, and title.

use vstd::prelude::*;

use crate::record::Record;
use vstd::string::{StrSliceExecFns, StringExecFns};

verus! {

/// `n` spaces.
pub open spec fn spaces(n: nat) -> Seq<char> {
    Seq::new(n, |i: int| ' ')
}

/// `s` left-aligned in a field of at least `w` characters: padded with
/// spaces on the right, never truncated.
pub open spec fn padded(s: Seq<char>, w: nat) -> Seq<char> {
    if s.len() >= w {
        s
    } else {
        s + spaces((w - s.len()) as nat)
    }
}

/// The line printed for one record: language, the channel URL built from the
/// display name padded to twenty characters, and the title, joined by a
/// fixed delimiter.
pub open spec fn line_parts(language: Seq<char>, display_name: Seq<char>, title: Seq<char>) -> Seq<
    char,
> {
    language + " | "@ + "https://twitch.tv/"@ + padded(display_name, 20) + " | "@ + title + "\n"@
}

pub open spec fn line_of(rec: Record) -> Seq<char> {
    line_parts(rec.language@, rec.display_name@, rec.title@)
}

/// Pad `s` with spaces on the right up to `width` characters.
pub fn pad_to_width(s: &str, width: usize) -> (r: String)
    ensures
        r@ == padded(s@, width as nat),
{
    let len = s.unicode_len();
    let mut out = String::from_str(s);
    proof {
        assert(out@ =~= s@ + spaces(0));
    }
    let mut i: usize = len;
    while i < width
        invariant
            len == s@.len(),
            len <= i,
            len < width ==> i <= width,
            len >= width ==> i == len,
            out@ == s@ + spaces((i - len) as nat),
        decreases width - i,
    {
        out.append(" ");
        proof {
            reveal_strlit(" ");
            assert(out@ =~= s@ + spaces((i + 1 - len) as nat));
        }
        i += 1;
    }
    proof {
        if len >= width {
            assert(out@ =~= s@);
        }
    }
    out
}

/// Render one record as its output line, exactly as `line_of` states it.
pub fn render_line(rec: &Record) -> (r: String)
    ensures
        r@ == line_of(*rec),
{
    let mut out = String::from_str(rec.language.as_str());
    out.append(" | ");
    out.append("https://twitch.tv/");
    let padded_name = pad_to_width(rec.display_name.as_str(), 20);
    out.append(padded_name.as_str());
    out.append(" | ");
    out.append(rec.title.as_str());
    out.append("\n");
    proof {
        assert(out@ =~= line_of(*rec));
    }
    out
}

} // verus!
