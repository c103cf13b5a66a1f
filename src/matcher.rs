//! A matcher for the maximal runs of characters that lie in a table of
//! ranges, and its use to delete those runs.
use std::borrow::Cow;
use vstd::prelude::*;
use crate::compiled::{class_items, class_pattern, compile, compiles, replace_runs, valid_table, Compiled};
use crate::table::{emoji_table, free_of, without};

verus! {

/// Whether the emoji pattern compiles.
pub open spec fn emoji_matcher_compiles() -> bool {
    compiles(class_pattern(emoji_table()))
}

/// The pattern could not be compiled.
#[derive(Debug, Clone, Copy, PartialEq, Eq)]
pub struct CompileError;

/// A compiled regular expression that matches the maximal runs of characters
/// lying in a table of ranges.
pub struct Matcher {
    re: Compiled,
    ranges: Ghost<Seq<(char, char)>>,
}

impl Matcher {
    /// The table of ranges whose runs this matcher deletes.
    pub closed spec fn ranges(&self) -> Seq<(char, char)> {
        self.ranges@
    }

    #[verifier::type_invariant]
    spec fn inv(&self) -> bool {
        &&& valid_table(self.ranges@)
        &&& self.re.source() == class_pattern(self.ranges@)
    }

    /// The matcher for the emoji table.
    pub fn emoji() -> (r: Result<Matcher, CompileError>)
        ensures
            r is Ok <==> emoji_matcher_compiles(),
            r matches Ok(m) ==> m.ranges() == emoji_table(),
    {
        let pattern = "[\u{1F600}-\u{1F64F}\u{1F300}-\u{1F5FF}\u{1F680}-\u{1F6FF}\u{1F1E0}-\u{1F1FF}\u{2702}-\u{27B0}\u{24C2}-\u{33FF}\u{4DC0}-\u{4DFF}\u{A000}-\u{F8FF}\u{FB00}-\u{1F251}]+";
        proof {
            reveal_strlit("[\u{1F600}-\u{1F64F}\u{1F300}-\u{1F5FF}\u{1F680}-\u{1F6FF}\u{1F1E0}-\u{1F1FF}\u{2702}-\u{27B0}\u{24C2}-\u{33FF}\u{4DC0}-\u{4DFF}\u{A000}-\u{F8FF}\u{FB00}-\u{1F251}]+");
            reveal_with_fuel(class_items, 10);
            assert(pattern@ =~= class_pattern(emoji_table()));
        }
        match compile(pattern) {
            Ok(re) => Ok(Matcher { re, ranges: Ghost(emoji_table()) }),
            Err(_) => Err(CompileError),
        }
    }

    /// `text` with every character that lies in a range of the table deleted.
    /// `text` itself comes back, borrowed, exactly when there is none; else a
    /// new string.
    pub fn strip<'t>(&self, text: &'t str) -> (r: Cow<'t, str>)
        ensures
            r@ == without(text@, self.ranges()),
            r is Borrowed <==> free_of(text@, self.ranges()),
    {
        proof {
            use_type_invariant(self);
        }
        replace_runs(&self.re, text)
    }
}

} // verus!
