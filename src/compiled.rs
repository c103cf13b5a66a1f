//! A compiled regular expression together with the pattern it was compiled
//! from, and the deletion of its matches.
//!
//! Only [`compile`] makes a [`Compiled`], so the pattern it records is always
//! the one its regex came from.
use std::borrow::Cow;
use regex::Regex;
use vstd::prelude::*;
use crate::table::{free_of, without};

verus! {

#[verifier::external_type_specification]
#[verifier::external_body]
pub struct ExRegex(regex::Regex);

#[verifier::external_type_specification]
#[verifier::external_body]
pub struct ExRegexError(regex::Error);

/// Whether `regex::Regex::new` accepts `pattern`.
pub uninterp spec fn compiles(pattern: Seq<char>) -> bool;

/// The ranges of `rs` written one after another as `lo-hi`.
pub open spec fn class_items(rs: Seq<(char, char)>) -> Seq<char>
    decreases rs.len(),
{
    if rs.len() == 0 {
        Seq::empty()
    } else {
        class_items(rs.drop_last()) + seq![rs.last().0, '-', rs.last().1]
    }
}

/// The pattern `[lo-hi...]+`: one or more characters, each in some range of `rs`.
pub open spec fn class_pattern(rs: Seq<(char, char)>) -> Seq<char> {
    seq!['['] + class_items(rs) + seq![']', '+']
}

/// A table that `class_pattern` writes as a plain character class: at least
/// one range, each ordered, with endpoints outside ASCII, where none of the
/// characters that the class syntax treats specially lie.
pub open spec fn valid_table(rs: Seq<(char, char)>) -> bool {
    &&& rs.len() > 0
    &&& forall|i: int|
        0 <= i < rs.len() ==> 0x80 <= (#[trigger] rs[i]).0 as u32 && rs[i].0 as u32
            <= rs[i].1 as u32
}

/// A regex and the pattern it was compiled from.
pub struct Compiled {
    re: Regex,
    source: Ghost<Seq<char>>,
}

impl Compiled {
    /// The pattern that the regex was compiled from.
    pub closed spec fn source(&self) -> Seq<char> {
        self.source@
    }
}

/// Relies on `regex::Regex::new`: it returns `Ok` exactly for the patterns
/// that it accepts, which depends on the pattern alone.
#[verifier::external_body]
pub fn compile(pattern: &str) -> (r: Result<Compiled, regex::Error>)
    ensures
        r is Ok <==> compiles(pattern@),
        r matches Ok(c) ==> c.source() == pattern@,
{
    match Regex::new(pattern) {
        Ok(re) => Ok(Compiled { re, source: Ghost(pattern@) }),
        Err(e) => Err(e),
    }
}

/// Relies on `regex::Regex::replace_all` with an empty replacement. For the
/// pattern `[lo-hi...]+`, the matches are the maximal runs of characters in
/// the class; each is replaced by nothing, so what remains is the text without
/// those characters, in order. With no match the haystack itself comes back,
/// borrowed; with a match, a new string.
#[verifier::external_body]
pub fn replace_runs<'t>(c: &Compiled, text: &'t str) -> (r: Cow<'t, str>)
    ensures
        forall|rs: Seq<(char, char)>|
            valid_table(rs) && c.source() == #[trigger] class_pattern(rs) ==> {
                &&& r@ == without(text@, rs)
                &&& (r is Borrowed <==> free_of(text@, rs))
            },
{
    c.re.replace_all(text, "")
}

} // verus!
