use super::{Declarative, PartitionError, Uniform};
use std::fmt::Display;
use vstd::prelude::*;
use vstd::string::to_string_from_display_ensures;
use vstd::string::StringExecFns;

verus! {

/// The text of a partition whose first point reads as `first` and whose
/// last one reads as `last`. The points between them are named, not shown:
/// none for a count of one, `x1` for a count of two, and for any other count
/// `x1` and dots up to the point numbered `top`.
pub open spec fn knots(first: Seq<char>, last: Seq<char>, count: usize, top: Seq<char>) -> Seq<
    char,
> {
    if count == 1 {
        "{"@ + first + " = x0, x1 = "@ + last + "}"@
    } else if count == 2 {
        "{"@ + first + " = x0, x1, x2 = "@ + last + "}"@
    } else {
        "{"@ + first + " = x0, x1, ..., x"@ + top + " = "@ + last + "}"@
    }
}

/// Writes the text of a partition: see [`knots`].
pub fn knots_text(first: &str, last: &str, count: usize, top: &str) -> (text: String)
    ensures
        text@ == knots(first@, last@, count, top@),
{
    let opened = String::from_str("{").concat(first);
    if count == 1 {
        opened.concat(" = x0, x1 = ").concat(last).concat("}")
    } else if count == 2 {
        opened.concat(" = x0, x1, x2 = ").concat(last).concat("}")
    } else {
        opened.concat(" = x0, x1, ..., x").concat(top).concat(" = ").concat(last).concat("}")
    }
}

/// The text that reports breakpoints which read as `bounds` as ill formed.
pub open spec fn ill_formed(bounds: Seq<char>) -> Seq<char> {
    "The bounds "@ + bounds + " are not well defined."@
}

impl<B: Display> PartitionError<B> {
    /// The text of the error: a sentence that names the bounds refused, as
    /// `to_string` reads them.
    pub fn to_text(&self) -> (text: String)
        ensures
            match *self {
                PartitionError::IllFormedBounds(bounds) => exists|shown: String| #[trigger]
                    to_string_from_display_ensures::<B>(&bounds, shown) && text@ == ill_formed(
                        shown@,
                    ),
            },
    {
        match self {
            PartitionError::IllFormedBounds(bounds) => {
                let shown = bounds.to_string();
                let text = String::from_str("The bounds ").concat(shown.as_str()).concat(
                    " are not well defined.",
                );
                assert(to_string_from_display_ensures::<B>(bounds, shown) && text@ == ill_formed(
                    shown@,
                ));
                text
            },
        }
    }
}

impl<const N: usize, V: Display> Declarative<N, V> {
    /// `text` is a text of the partition: its first and its last breakpoint
    /// as `to_string` reads them, and between them the names of the others,
    /// up to the number of the last one. A partition without breakpoints reads
    /// as a pair of braces.
    pub open spec fn reads_as(&self, text: Seq<char>) -> bool {
        if N == 0 {
            text == "{}"@
        } else {
            exists|first: String, last: String, top: String|
                #![trigger knots(first@, last@, N, top@)]
                {
                    &&& to_string_from_display_ensures::<V>(&self@[0], first)
                    &&& to_string_from_display_ensures::<V>(&self@[N - 1], last)
                    &&& to_string_from_display_ensures::<usize>(&((N - 1) as usize), top)
                    &&& text == knots(first@, last@, N, top@)
                }
        }
    }

    /// The text of the partition.
    pub fn to_text(&self) -> (text: String)
        ensures
            self.reads_as(text@),
    {
        if N == 0 {
            return String::from_str("{}");
        }
        proof {
            self.breakpoints_len();
        }
        let first = self[0].to_string();
        let last = self[N - 1].to_string();
        let number: usize = N - 1;
        let top = number.to_string();
        let text = knots_text(first.as_str(), last.as_str(), N, top.as_str());
        assert(text@ == knots(first@, last@, N, top@));
        text
    }
}

impl<V: Display> Uniform<V> {
    /// `text` is a text of the partition: its two sides as `to_string` reads
    /// them, and between them the names of the points that part the
    /// subintervals, up to the number of subintervals.
    pub open spec fn reads_as(&self, text: Seq<char>) -> bool {
        exists|left: String, right: String, top: String|
            #![trigger knots(left@, right@, self.size, top@)]
            {
                &&& to_string_from_display_ensures::<V>(&self.left, left)
                &&& to_string_from_display_ensures::<V>(&self.right, right)
                &&& to_string_from_display_ensures::<usize>(&self.size, top)
                &&& text == knots(left@, right@, self.size, top@)
            }
    }

    /// The text of the partition.
    pub fn to_text(&self) -> (text: String)
        ensures
            self.reads_as(text@),
    {
        let left = self.left.to_string();
        let right = self.right.to_string();
        let top = self.size.to_string();
        let text = knots_text(left.as_str(), right.as_str(), self.size, top.as_str());
        assert(text@ == knots(left@, right@, self.size, top@));
        text
    }
}

} // verus!
