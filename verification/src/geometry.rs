//! A rectangle of integer sides, with containment and safe division.

use vstd::prelude::*;
use vstd::string::StringExecFns;

verus! {

/// A point whose two coordinates may have different types.
pub struct Point<T, U> {
    pub x: T,
    pub y: U,
}

#[derive(Debug, PartialEq, Eq, Structural)]
pub struct Rectangle {
    pub w: u32,
    pub h: u32,
}

impl Rectangle {
    /// Whether this rectangle can hold `other`: strictly wider and
    /// strictly taller.
    pub fn can_hold(&self, other: &Rectangle) -> (r: bool)
        ensures
            r == (self.w > other.w && self.h > other.h),
    {
        self.w > other.w && self.h > other.h
    }

    /// Both sides divided by `divider`; a zero divider is rejected.
    pub fn safe_divide(&self, divider: u32) -> (r: Result<Rectangle, String>)
        ensures
            match r {
                Ok(q) => divider != 0 && q.w == self.w / divider && q.h == self.h / divider,
                Err(m) => divider == 0 && m@ == "div by zero"@,
            },
    {
        match divider {
            0 => Err(String::from_str("div by zero")),
            _ => Ok(Rectangle { w: self.w / divider, h: self.h / divider }),
        }
    }
}

} // verus!
