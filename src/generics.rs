//! A point whose two coordinates may have different types.
use vstd::prelude::*;

verus! {

#[derive(Debug)]
pub struct Point<T, U> {
    pub x: T,
    pub y: U,
}

impl<T, U> Point<T, U> {
    pub fn x(&self) -> (r: &T)
        ensures
            *r == self.x,
    {
        &self.x
    }

    pub fn y(&self) -> (r: &U)
        ensures
            *r == self.y,
    {
        &self.y
    }

    /// The `x` of this point paired with the `y` of `other`.
    pub fn mixup<V, W>(self, other: Point<V, W>) -> (p: Point<T, W>)
        ensures
            p.x == self.x,
            p.y == other.y,
    {
        Point { x: self.x, y: other.y }
    }
}

/// The longer of two strings by byte length; `y` when they are equally long.
pub fn longest_of_two_strings<'a>(x: &'a str, y: &'a str) -> (r: &'a str)
    ensures
        r == if x.len() > y.len() {
            x
        } else {
            y
        },
{
    if x.len() > y.len() {
        x
    } else {
        y
    }
}

} // verus!
