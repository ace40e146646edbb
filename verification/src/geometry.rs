use vstd::prelude::*;

verus! {

/// A point or extent in two-dimensional pixel space.
#[derive(Clone, Copy, PartialEq, Eq, Structural, Debug)]
pub struct Vector2 {
    pub x: i32,
    pub y: i32,
}

impl Vector2 {
    pub fn new(x: i32, y: i32) -> (r: Vector2)
        ensures
            r == (Vector2 { x, y }),
    {
        Vector2 { x, y }
    }
}

/// An axis-aligned rectangle: an origin together with an extent.
/// During the paint phase it records where an element was actually drawn.
#[derive(Clone, Copy, PartialEq, Eq, Structural, Debug)]
pub struct Rect {
    pub origin: Vector2,
    pub size: Vector2,
}

impl Rect {
    /// Whether `p` falls inside the rectangle, with the usual half-open
    /// convention: the left and top edges are inside, the right and bottom
    /// edges are not.
    pub open spec fn contains_spec(self, p: Vector2) -> bool {
        &&& self.origin.x <= p.x < self.origin.x + self.size.x
        &&& self.origin.y <= p.y < self.origin.y + self.size.y
    }

    pub fn new(origin: Vector2, size: Vector2) -> (r: Rect)
        ensures
            r == (Rect { origin, size }),
    {
        Rect { origin, size }
    }

    pub fn origin(&self) -> (r: Vector2)
        ensures
            r == self.origin,
    {
        self.origin
    }

    pub fn size(&self) -> (r: Vector2)
        ensures
            r == self.size,
    {
        self.size
    }

    /// Whether a point falls inside the rectangle.
    pub fn contains(&self, p: Vector2) -> (r: bool)
        ensures
            r == self.contains_spec(p),
    {
        let ox: i64 = self.origin.x as i64;
        let oy: i64 = self.origin.y as i64;
        let sx: i64 = self.size.x as i64;
        let sy: i64 = self.size.y as i64;
        (p.x as i64) >= ox && (p.x as i64) < ox + sx && (p.y as i64) >= oy && (p.y as i64) < oy
            + sy
    }
}

/// The sizing constraints a parent hands down when it asks a child to lay
/// itself out: the child's measured size is expected to fall between `min`
/// and `max` on each axis.
#[derive(Clone, Copy, PartialEq, Eq, Structural, Debug)]
pub struct SizeConstraint {
    pub min: Vector2,
    pub max: Vector2,
}

impl SizeConstraint {
    pub fn new(min: Vector2, max: Vector2) -> (r: SizeConstraint)
        ensures
            r == (SizeConstraint { min, max }),
    {
        SizeConstraint { min, max }
    }
}

} // verus!
