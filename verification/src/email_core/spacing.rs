//! Spacing values for padding and margin.

use vstd::prelude::*;
use crate::email_core::types::Px;

verus! {

broadcast use vstd::string::group_string_axioms;

/// Spacing values for padding and margin (top, right, bottom, left).
#[derive(Debug, Clone, Copy, PartialEq, Eq, Structural)]
pub struct Spacing {
    pub top: Px,
    pub right: Px,
    pub bottom: Px,
    pub left: Px,
}

impl Spacing {
    /// The CSS shorthand: one value when all sides agree, two values
    /// (vertical, horizontal) when opposite sides agree, otherwise four.
    pub open spec fn css(self) -> Seq<char> {
        if self.top == self.right && self.right == self.bottom && self.bottom == self.left {
            self.top.css()
        } else if self.top == self.bottom && self.left == self.right {
            self.top.css() + " "@ + self.right.css()
        } else {
            self.top.css() + " "@ + self.right.css() + " "@ + self.bottom.css() + " "@
                + self.left.css()
        }
    }

    /// All four sides the same.
    pub fn all(value: Px) -> (s: Spacing)
        ensures
            s == (Spacing { top: value, right: value, bottom: value, left: value }),
    {
        Spacing { top: value, right: value, bottom: value, left: value }
    }

    /// Vertical and horizontal (top/bottom, left/right).
    pub fn xy(vertical: Px, horizontal: Px) -> (s: Spacing)
        ensures
            s == (Spacing { top: vertical, right: horizontal, bottom: vertical, left: horizontal }),
    {
        Spacing { top: vertical, right: horizontal, bottom: vertical, left: horizontal }
    }

    /// Each side specified individually.
    pub fn new(top: Px, right: Px, bottom: Px, left: Px) -> (s: Spacing)
        ensures
            s == (Spacing { top, right, bottom, left }),
    {
        Spacing { top, right, bottom, left }
    }

    /// Zero spacing on all sides.
    pub fn zero() -> (s: Spacing)
        ensures
            s == (Spacing { top: Px(0), right: Px(0), bottom: Px(0), left: Px(0) }),
    {
        Spacing::all(Px(0))
    }

    /// Render as the CSS shorthand (`10px`, `10px 20px`, `1px 2px 3px 4px`).
    pub fn to_string(&self) -> (s: String)
        ensures
            s@ == self.css(),
    {
        if self.top.0 == self.right.0 && self.right.0 == self.bottom.0 && self.bottom.0
            == self.left.0 {
            self.top.to_string()
        } else if self.top.0 == self.bottom.0 && self.left.0 == self.right.0 {
            let mut s = self.top.to_string();
            s.append(" ");
            s.append(self.right.to_string().as_str());
            s
        } else {
            let mut s = self.top.to_string();
            s.append(" ");
            s.append(self.right.to_string().as_str());
            s.append(" ");
            s.append(self.bottom.to_string().as_str());
            s.append(" ");
            s.append(self.left.to_string().as_str());
            s
        }
    }
}

impl Default for Spacing {
    fn default() -> (s: Spacing)
        ensures
            s == (Spacing { top: Px(0), right: Px(0), bottom: Px(0), left: Px(0) }),
    {
        Spacing::zero()
    }
}

} // verus!
