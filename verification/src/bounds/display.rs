use super::{Bound, Closed, NoBound, Open, OpenOrClosed};
use crate::model::Limit;
use std::fmt::Display;
use vstd::prelude::*;
use vstd::string::to_string_from_display_ensures;
use vstd::string::StringExecFns;

verus! {

/// The text of the left side of an interval whose left bound carries a value
/// that reads as `text`: an opening bracket, round for an open bound and
/// square for a closed one, then the value.
pub fn left_fragment(open: bool, text: &str) -> (fragment: String)
    ensures
        fragment@ == (if open {
            seq!['(']
        } else {
            seq!['[']
        }) + text@,
{
    proof {
        reveal_strlit("(");
        reveal_strlit("[");
    }
    let bracket = if open {
        "("
    } else {
        "["
    };
    String::from_str(bracket).concat(text)
}

/// The text of the right side of an interval whose right bound carries a
/// value that reads as `text`: the value, then a closing bracket, round for an
/// open bound and square for a closed one.
pub fn right_fragment(open: bool, text: &str) -> (fragment: String)
    ensures
        fragment@ == text@ + (if open {
            seq![')']
        } else {
            seq![']']
        }),
{
    proof {
        reveal_strlit(")");
        reveal_strlit("]");
    }
    let bracket = if open {
        ")"
    } else {
        "]"
    };
    String::from_str(text).concat(bracket)
}

/// The text of a left side without a bound.
pub fn left_unbounded() -> (fragment: String)
    ensures
        fragment@ == seq!['(', '\u{221E}'],
{
    proof {
        reveal_strlit("(\u{221E}");
    }
    String::from_str("(\u{221E}")
}

/// The text of a right side without a bound.
pub fn right_unbounded() -> (fragment: String)
    ensures
        fragment@ == seq!['\u{221E}', ')'],
{
    proof {
        reveal_strlit("\u{221E})");
    }
    String::from_str("\u{221E})")
}

/// What the text `fragment` must be to stand for the bound `limit` on the
/// left side: a bracket and then `text`, the reading of the bound's value.
pub open spec fn reads_left<V>(limit: Limit<V>, text: Seq<char>, fragment: Seq<char>) -> bool {
    match limit {
        Limit::Unbounded => fragment == seq!['(', '\u{221E}'],
        Limit::Open(_) => fragment == seq!['('] + text,
        Limit::Closed(_) => fragment == seq!['['] + text,
    }
}

/// What the text `fragment` must be to stand for the bound `limit` on the
/// right side: `text`, the reading of the bound's value, and then a bracket.
pub open spec fn reads_right<V>(limit: Limit<V>, text: Seq<char>, fragment: Seq<char>) -> bool {
    match limit {
        Limit::Unbounded => fragment == seq!['\u{221E}', ')'],
        Limit::Open(_) => fragment == text + seq![')'],
        Limit::Closed(_) => fragment == text + seq![']'],
    }
}

/// Trait for formatting bound upper/lower bound strings.
pub trait BoundDisplay: Bound {
    /// `text` is a reading of the value that the bound carries.
    spec fn shows(&self, text: String) -> bool;

    /// The text of the bound as the left side of an interval.
    fn fmt_left(&self) -> (fragment: String)
        ensures
            self@ is Unbounded ==> fragment@ == seq!['(', '\u{221E}'],
            !(self@ is Unbounded) ==> exists|text: String| #[trigger]
                self.shows(text) && reads_left(self@, text@, fragment@),
    ;

    /// The text of the bound as the right side of an interval.
    fn fmt_right(&self) -> (fragment: String)
        ensures
            self@ is Unbounded ==> fragment@ == seq!['\u{221E}', ')'],
            !(self@ is Unbounded) ==> exists|text: String| #[trigger]
                self.shows(text) && reads_right(self@, text@, fragment@),
    ;
}

impl<V: PartialOrd> BoundDisplay for NoBound<V> {
    open spec fn shows(&self, text: String) -> bool {
        false
    }

    fn fmt_left(&self) -> String {
        left_unbounded()
    }

    fn fmt_right(&self) -> String {
        right_unbounded()
    }
}

impl<V: PartialOrd + Display> BoundDisplay for Open<V> {
    open spec fn shows(&self, text: String) -> bool {
        to_string_from_display_ensures::<V>(&self.0, text)
    }

    fn fmt_left(&self) -> String {
        let text = self.0.to_string();
        let fragment = left_fragment(true, text.as_str());
        assert(self.shows(text) && reads_left(self@, text@, fragment@));
        fragment
    }

    fn fmt_right(&self) -> String {
        let text = self.0.to_string();
        let fragment = right_fragment(true, text.as_str());
        assert(self.shows(text) && reads_right(self@, text@, fragment@));
        fragment
    }
}

impl<V: PartialOrd + Display> BoundDisplay for Closed<V> {
    open spec fn shows(&self, text: String) -> bool {
        to_string_from_display_ensures::<V>(&self.0, text)
    }

    fn fmt_left(&self) -> String {
        let text = self.0.to_string();
        let fragment = left_fragment(false, text.as_str());
        assert(self.shows(text) && reads_left(self@, text@, fragment@));
        fragment
    }

    fn fmt_right(&self) -> String {
        let text = self.0.to_string();
        let fragment = right_fragment(false, text.as_str());
        assert(self.shows(text) && reads_right(self@, text@, fragment@));
        fragment
    }
}

impl<V: PartialOrd + Display> BoundDisplay for OpenOrClosed<V> {
    open spec fn shows(&self, text: String) -> bool {
        to_string_from_display_ensures::<V>(&self.inner(), text)
    }

    fn fmt_left(&self) -> String {
        match self {
            OpenOrClosed::Open(v) => {
                let text = v.to_string();
                let fragment = left_fragment(true, text.as_str());
                assert(self.shows(text) && reads_left(self@, text@, fragment@));
                fragment
            },
            OpenOrClosed::Closed(v) => {
                let text = v.to_string();
                let fragment = left_fragment(false, text.as_str());
                assert(self.shows(text) && reads_left(self@, text@, fragment@));
                fragment
            },
        }
    }

    fn fmt_right(&self) -> String {
        match self {
            OpenOrClosed::Open(v) => {
                let text = v.to_string();
                let fragment = right_fragment(true, text.as_str());
                assert(self.shows(text) && reads_right(self@, text@, fragment@));
                fragment
            },
            OpenOrClosed::Closed(v) => {
                let text = v.to_string();
                let fragment = right_fragment(false, text.as_str());
                assert(self.shows(text) && reads_right(self@, text@, fragment@));
                fragment
            },
        }
    }
}

} // verus!
