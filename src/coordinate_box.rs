use vstd::prelude::*;

verus! {

/// An axis-aligned rectangle given by its origin and size, with its four
/// corners worked out once:
///
/// ```text
///    c1 ─► ┌─────────────┐ ◄─ c2
///          │ ↖           │
///          │  x,y        │
///          │             │
///    c3 ─► └─────────────┘ ◄─ c4
/// ```
pub struct CoordinateBox {
    pub x: i32,
    pub y: i32,
    pub c1: (i32, i32),
    pub c2: (i32, i32),
    pub c3: (i32, i32),
    pub c4: (i32, i32),
    pub width: u32,
    pub height: u32,
}

/// A rectangle with origin `(x, y)` and the given size fits in `i32`
/// coordinates: its size and its far corner are representable.
pub open spec fn fits_i32(x: int, y: int, width: int, height: int) -> bool {
    &&& width <= i32::MAX
    &&& height <= i32::MAX
    &&& x + width <= i32::MAX
    &&& y + height <= i32::MAX
}

impl CoordinateBox {
    /// The corners agree with the origin and size.
    pub open spec fn wf(&self) -> bool {
        &&& self.c1 == (self.x, self.y)
        &&& self.c2.0 == self.x + self.width && self.c2.1 == self.y
        &&& self.c3.0 == self.x && self.c3.1 == self.y + self.height
        &&& self.c4.0 == self.x + self.width && self.c4.1 == self.y + self.height
    }

    pub fn new(x: i32, y: i32, width: u32, height: u32) -> (r: Self)
        requires
            fits_i32(x as int, y as int, width as int, height as int),
        ensures
            r.wf(),
            r.x == x,
            r.y == y,
            r.width == width,
            r.height == height,
    {
        let w = width as i32;
        let h = height as i32;
        CoordinateBox {
            x,
            y,
            c1: (x, y),
            c2: (x + w, y),
            c3: (x, y + h),
            c4: (x + w, y + h),
            width,
            height,
        }
    }
}

} // verus!
