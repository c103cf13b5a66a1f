//! Deleting emoji from text, as a function and as a method on strings.
use std::borrow::Cow;
use vstd::prelude::*;
use crate::matcher::{emoji_matcher_compiles, CompileError, Matcher};
use crate::table::{emoji_table, free_of, remove_emoji};

verus! {

/// `string` with every emoji deleted, each maximal run of them at once; the
/// other characters keep their order. When `string` holds no emoji, it comes
/// back borrowed, with nothing allocated; otherwise the result is a new string.
///
/// The matcher is compiled for the call; to compile it once, build a
/// [`Matcher::emoji`] and call [`Matcher::strip`].
pub fn demoji(string: &str) -> (r: Result<Cow<'_, str>, CompileError>)
    ensures
        r is Ok <==> emoji_matcher_compiles(),
        r matches Ok(t) ==> {
            &&& t@ == remove_emoji(string@)
            &&& (t is Borrowed <==> free_of(string@, emoji_table()))
        },
{
    let m = Matcher::emoji()?;
    Ok(m.strip(string))
}

/// Emoji removal as a method of string types.
pub trait Demoji: View<V = Seq<char>> {
    /// The text with every emoji deleted, as [`demoji`] returns it.
    fn demojify(&self) -> (r: Result<Cow<'_, str>, CompileError>)
        ensures
            r is Ok <==> emoji_matcher_compiles(),
            r matches Ok(t) ==> {
                &&& t@ == remove_emoji(self@)
                &&& (t is Borrowed <==> free_of(self@, emoji_table()))
            },
    ;
}

impl Demoji for &str {
    fn demojify(&self) -> (r: Result<Cow<'_, str>, CompileError>) {
        demoji(*self)
    }
}

impl Demoji for String {
    fn demojify(&self) -> (r: Result<Cow<'_, str>, CompileError>) {
        demoji(self.as_str())
    }
}

} // verus!
