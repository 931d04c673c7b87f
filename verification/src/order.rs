//! How numbers compare.
//!
//! The coordinates of a position or an offset are never read as numbers
//! here. Where it matters whether one coordinate is less than, equal to or
//! greater than another, the comparison of the standard library is asked
//! and its answer is given a name. It is asked of first coordinates; second
//! coordinates are brought into first place for it.
use vstd::prelude::*;
use egui::Vec2;
use crate::plane::{vec_all_y, vec_splat_y};

verus! {

/// How one number compares with another. Two numbers are unordered when one
/// of them is no number at all.
#[derive(Debug, Clone, Copy, PartialEq, Eq, Structural)]
pub enum Comparison {
    Less,
    Equal,
    Greater,
    Unordered,
}

impl Comparison {
    /// Whether the first number is at least the second.
    pub open spec fn at_least(self) -> bool {
        self == Comparison::Greater || self == Comparison::Equal
    }

    /// Whether the first number is at most the second.
    pub open spec fn at_most(self) -> bool {
        self == Comparison::Less || self == Comparison::Equal
    }

    pub fn is_at_least(&self) -> (yes: bool)
        ensures
            yes == self.at_least(),
    {
        matches!(self, Comparison::Greater | Comparison::Equal)
    }

    pub fn is_at_most(&self) -> (yes: bool)
        ensures
            yes == self.at_most(),
    {
        matches!(self, Comparison::Less | Comparison::Equal)
    }
}

/// How one offset compares with another, coordinate by coordinate.
#[derive(Debug, Clone, Copy, PartialEq, Eq, Structural)]
pub struct Compared {
    pub x: Comparison,
    pub y: Comparison,
}

/// What `partial_cmp` returns for the first coordinates of `a` and `b`: how
/// the first coordinate of `a` compares with that of `b`.
pub uninterp spec fn compared_x(a: Vec2, b: Vec2) -> Comparison;

/// How `a` compares with `b`, coordinate by coordinate.
pub open spec fn compared(a: Vec2, b: Vec2) -> Compared {
    Compared { x: compared_x(a, b), y: compared_x(vec_all_y(a), vec_all_y(b)) }
}

/// Calls `partial_cmp` on the first coordinates of `a` and `b`. Trusted:
/// the result is `compared_x(a, b)`.
#[verifier::external_body]
pub(crate) fn compare_x(a: Vec2, b: Vec2) -> (c: Comparison)
    ensures
        c == compared_x(a, b),
{
    match a.x.partial_cmp(&b.x) {
        Some(std::cmp::Ordering::Less) => Comparison::Less,
        Some(std::cmp::Ordering::Equal) => Comparison::Equal,
        Some(std::cmp::Ordering::Greater) => Comparison::Greater,
        None => Comparison::Unordered,
    }
}

impl Compared {
    /// Whether the two offsets are equal in both coordinates.
    pub open spec fn same(self) -> bool {
        self.x == Comparison::Equal && self.y == Comparison::Equal
    }

    pub fn is_same(&self) -> (yes: bool)
        ensures
            yes == self.same(),
    {
        matches!(self.x, Comparison::Equal) && matches!(self.y, Comparison::Equal)
    }
}

/// How `a` compares with `b`, coordinate by coordinate.
pub fn compare(a: Vec2, b: Vec2) -> (c: Compared)
    ensures
        c == compared(a, b),
{
    Compared { x: compare_x(a, b), y: compare_x(vec_splat_y(a), vec_splat_y(b)) }
}

} // verus!
