//! The coin-toss choice: two canonical values, with the accepted input
//! spellings ("head"/"heads"/"tail"/"tails") normalized onto them.

use vstd::prelude::*;

use crate::text::str_eq;

verus! {

#[derive(Clone, Copy, Debug, PartialEq, Eq, Structural)]
pub enum Choice {
    Head,
    Tail,
}

/// The canonical lowercase token of a choice.
pub open spec fn spec_normalize(c: Choice) -> Seq<char> {
    match c {
        Choice::Head => "head"@,
        Choice::Tail => "tail"@,
    }
}

/// Which choice, if any, an input token names.
pub open spec fn spec_parse_choice(s: Seq<char>) -> Option<Choice> {
    if s == "head"@ || s == "heads"@ {
        Option::Some(Choice::Head)
    } else if s == "tail"@ || s == "tails"@ {
        Option::Some(Choice::Tail)
    } else {
        Option::None
    }
}

impl Choice {
    /// The canonical lowercase token for this choice.
    pub fn normalize(&self) -> (r: &'static str)
        ensures
            r@ == spec_normalize(*self),
    {
        match self {
            Choice::Head => "head",
            Choice::Tail => "tail",
        }
    }
}

/// Parse an input token into a choice; every spelling outside the four
/// accepted ones is rejected.
pub fn parse_choice(s: &str) -> (r: Option<Choice>)
    ensures
        r == spec_parse_choice(s@),
{
    if str_eq(s, "head") || str_eq(s, "heads") {
        Option::Some(Choice::Head)
    } else if str_eq(s, "tail") || str_eq(s, "tails") {
        Option::Some(Choice::Tail)
    } else {
        Option::None
    }
}

/// Normalization and parsing agree: the canonical token of a choice
/// parses back to that same choice.
pub proof fn lemma_normalize_parse_round_trip(c: Choice)
    ensures
        spec_parse_choice(spec_normalize(c)) == Option::Some(c),
{
    reveal_strlit("head");
    reveal_strlit("heads");
    reveal_strlit("tail");
    reveal_strlit("tails");
    if c == Choice::Tail {
        assert("tail"@[0] == 't' && "head"@[0] == 'h');
        assert("tail"@.len() == 4 && "heads"@.len() == 5);
    }
}

} // verus!
