use vstd::prelude::*;

verus! {

/// An axis-aligned rectangle in canvas pixel space. The top-left corner is
/// inside the rectangle, the bottom-right edge is not.
#[derive(Clone, Copy, Debug, PartialEq, Eq, Structural)]
pub struct Area {
    pub x: i32,
    pub y: i32,
    pub width: i32,
    pub height: i32,
}

/// Whether the point `(px, py)` lies inside `a`.
pub open spec fn area_contains(a: Area, px: int, py: int) -> bool {
    &&& a.x <= px < a.x + a.width
    &&& a.y <= py < a.y + a.height
}

impl Area {
    pub fn new(x: i32, y: i32, width: i32, height: i32) -> (r: Area)
        ensures
            r == (Area { x, y, width, height }),
    {
        Area { x, y, width, height }
    }

    pub fn contains(&self, px: i32, py: i32) -> (r: bool)
        ensures
            r == area_contains(*self, px as int, py as int),
    {
        let px = px as i64;
        let py = py as i64;
        self.x as i64 <= px && px < self.x as i64 + self.width as i64 && self.y as i64 <= py && py
            < self.y as i64 + self.height as i64
    }
}

} // verus!
