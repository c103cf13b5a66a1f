//! Properties of emoji removal that relate several texts or calls.
use vstd::prelude::*;
use crate::table::{emoji_table, free_of, in_ranges, is_emoji, lemma_is_emoji_unfold, remove_emoji};

verus! {

/// A CJK ideograph: the unified ideographs of the basic plane and their
/// extension A, the compatibility ideographs, and the supplementary and
/// tertiary ideographic planes.
pub open spec fn is_cjk_ideograph(c: char) -> bool {
    let x = c as u32;
    ||| 0x3400 <= x <= 0x4DBF
    ||| 0x4E00 <= x <= 0x9FFF
    ||| 0xF900 <= x <= 0xFAFF
    ||| 0x20000 <= x <= 0x3FFFF
}

/// Filtering by two predicates that agree on every element of `s` gives one result.
proof fn lemma_filter_agree(s: Seq<char>, p: spec_fn(char) -> bool, q: spec_fn(char) -> bool)
    requires
        forall|i: int| 0 <= i < s.len() ==> p(#[trigger] s[i]) == q(s[i]),
    ensures
        s.filter(p) == s.filter(q),
    decreases s.len(),
{
    reveal_with_fuel(Seq::filter, 1);
    if s.len() > 0 {
        let t = s.drop_last();
        assert forall|i: int| 0 <= i < t.len() implies p(#[trigger] t[i]) == q(t[i]) by {
            assert(t[i] == s[i]);
        }
        lemma_filter_agree(t, p, q);
    }
}

/// Text that holds no emoji is left exactly as it is.
pub proof fn lemma_no_emoji_unchanged(s: Seq<char>)
    requires
        free_of(s, emoji_table()),
    ensures
        remove_emoji(s) == s,
    decreases s.len(),
{
    reveal_with_fuel(Seq::filter, 1);
    if s.len() > 0 {
        let t = s.drop_last();
        assert(free_of(t, emoji_table())) by {
            assert forall|i: int| 0 <= i < t.len() implies !in_ranges(#[trigger] t[i], emoji_table()) by {
                assert(t[i] == s[i]);
            }
        }
        lemma_no_emoji_unchanged(t);
        assert(s =~= t.push(s.last()));
        assert(!in_ranges(s[s.len() - 1], emoji_table()));
    } else {
        assert(s.filter(|c: char| !in_ranges(c, emoji_table())) =~= s);
    }
}

/// The result of removing emoji holds no emoji.
pub proof fn lemma_result_emoji_free(s: Seq<char>)
    ensures
        free_of(remove_emoji(s), emoji_table()),
{
    let r = remove_emoji(s);
    broadcast use vstd::seq_lib::group_filter_ensures;

    assert forall|i: int| 0 <= i < r.len() implies !in_ranges(#[trigger] r[i], emoji_table()) by {
        assert((|c: char| !in_ranges(c, emoji_table()))(r[i]));
    }
}

/// Removing emoji a second time changes nothing.
pub proof fn lemma_idempotent(s: Seq<char>)
    ensures
        remove_emoji(remove_emoji(s)) == remove_emoji(s),
{
    lemma_result_emoji_free(s);
    lemma_no_emoji_unchanged(remove_emoji(s));
}

/// No CJK ideograph lies in a range of the table.
pub proof fn lemma_ideograph_not_emoji(c: char)
    requires
        is_cjk_ideograph(c),
    ensures
        !is_emoji(c),
{
    lemma_is_emoji_unfold(c);
}

/// In a text made of emoji and CJK ideographs, removal keeps exactly the
/// ideographs, in their order.
pub proof fn lemma_ideographs_kept(s: Seq<char>)
    requires
        forall|i: int| 0 <= i < s.len() ==> is_emoji(#[trigger] s[i]) || is_cjk_ideograph(s[i]),
    ensures
        remove_emoji(s) == s.filter(|c: char| is_cjk_ideograph(c)),
{
    assert forall|i: int| 0 <= i < s.len() implies !in_ranges(#[trigger] s[i], emoji_table())
        == is_cjk_ideograph(s[i]) by {
        if is_cjk_ideograph(s[i]) {
            lemma_ideograph_not_emoji(s[i]);
        }
    }
    lemma_filter_agree(s, |c: char| !in_ranges(c, emoji_table()), |c: char| is_cjk_ideograph(c));
}

} // verus!
