//! Plain 2D geometry: a point and a sprite-sheet rectangle.
//!
//! The rendering boundary has its own point and rectangle types; these hold
//! the same data as plain integers so that the movement and animation logic
//! can be stated and checked over them.

use vstd::prelude::*;

verus! {

/// A 2D integer coordinate. The origin is conceptually the screen centre;
/// x grows to the right, y grows downward.
#[derive(Debug, Clone, Copy, PartialEq, Eq, Structural)]
pub struct Point {
    pub x: i32,
    pub y: i32,
}

impl Point {
    /// The point (x, y).
    pub fn new(x: i32, y: i32) -> (p: Point)
        ensures
            p.x == x,
            p.y == y,
    {
        Point { x, y }
    }
}

/// A rectangle into a sprite-sheet texture: top-left corner and size.
#[derive(Debug, Clone, Copy, PartialEq, Eq, Structural)]
pub struct Rect {
    pub x: i32,
    pub y: i32,
    pub width: u32,
    pub height: u32,
}

impl Rect {
    /// The rectangle with top-left corner (x, y) and the given size.
    pub fn new(x: i32, y: i32, width: u32, height: u32) -> (r: Rect)
        ensures
            r.x == x,
            r.y == y,
            r.width == width,
            r.height == height,
    {
        Rect { x, y, width, height }
    }
}

} // verus!
