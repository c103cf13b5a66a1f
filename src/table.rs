//! The fixed table of code-point ranges that count as emoji, and the meaning
//! of deleting them from a text.
use vstd::prelude::*;

verus! {

/// `c` lies in the closed range `[lo, hi]` of code points.
pub open spec fn in_range(c: char, lo: char, hi: char) -> bool {
    lo as u32 <= c as u32 && c as u32 <= hi as u32
}

/// `c` lies in at least one range of `rs`.
pub open spec fn in_ranges(c: char, rs: Seq<(char, char)>) -> bool {
    exists|i: int| 0 <= i < rs.len() && in_range(c, rs[i].0, rs[i].1)
}

/// The ranges that count as emoji, in the order in which the pattern lists them.
pub open spec fn emoji_table() -> Seq<(char, char)> {
    seq![
        ('\u{1F600}', '\u{1F64F}'),  // emoticons
        ('\u{1F300}', '\u{1F5FF}'),  // symbols & pictographs
        ('\u{1F680}', '\u{1F6FF}'),  // transport & map symbols
        ('\u{1F1E0}', '\u{1F1FF}'),  // regional indicators (flags)
        ('\u{2702}', '\u{27B0}'),  // dingbats
        ('\u{24C2}', '\u{33FF}'),  // enclosed characters up to the ideographs
        ('\u{4DC0}', '\u{4DFF}'),  // hexagram symbols
        ('\u{A000}', '\u{F8FF}'),  // after the unified ideographs
        ('\u{FB00}', '\u{1F251}'),  // after the compatibility ideographs
    ]
}

/// `c` is an emoji in the sense of this library.
pub open spec fn is_emoji(c: char) -> bool {
    in_ranges(c, emoji_table())
}

/// `s` with every character that lies in a range of `rs` deleted.
pub open spec fn without(s: Seq<char>, rs: Seq<(char, char)>) -> Seq<char> {
    s.filter(|c: char| !in_ranges(c, rs))
}

/// No character of `s` lies in a range of `rs`.
pub open spec fn free_of(s: Seq<char>, rs: Seq<(char, char)>) -> bool {
    forall|i: int| 0 <= i < s.len() ==> !in_ranges(#[trigger] s[i], rs)
}

/// `s` with every emoji deleted.
pub open spec fn remove_emoji(s: Seq<char>) -> Seq<char> {
    without(s, emoji_table())
}

/// The membership test written out range by range.
pub proof fn lemma_is_emoji_unfold(c: char)
    ensures
        is_emoji(c) <==> {
            let x = c as u32;
            ||| 0x1F600 <= x <= 0x1F64F
            ||| 0x1F300 <= x <= 0x1F5FF
            ||| 0x1F680 <= x <= 0x1F6FF
            ||| 0x1F1E0 <= x <= 0x1F1FF
            ||| 0x2702 <= x <= 0x27B0
            ||| 0x24C2 <= x <= 0x33FF
            ||| 0x4DC0 <= x <= 0x4DFF
            ||| 0xA000 <= x <= 0xF8FF
            ||| 0xFB00 <= x <= 0x1F251
        },
{
    let t = emoji_table();
    if is_emoji(c) {
        let i = choose|i: int| 0 <= i < t.len() && in_range(c, t[i].0, t[i].1);
    } else {
        assert(!in_range(c, t[0].0, t[0].1));
        assert(!in_range(c, t[1].0, t[1].1));
        assert(!in_range(c, t[2].0, t[2].1));
        assert(!in_range(c, t[3].0, t[3].1));
        assert(!in_range(c, t[4].0, t[4].1));
        assert(!in_range(c, t[5].0, t[5].1));
        assert(!in_range(c, t[6].0, t[6].1));
        assert(!in_range(c, t[7].0, t[7].1));
        assert(!in_range(c, t[8].0, t[8].1));
    }
}

} // verus!
