use crate::coordinate_box::{fits_i32, CoordinateBox};
use crate::traits::Draw;
use vstd::prelude::*;

verus! {

/// A node of the scene tree: a rectangle, a state value and the drawable
/// children it owns, in order.
pub struct Object<T> {
    pub rect: CoordinateBox,
    pub state: T,
    pub children: Vec<Box<dyn Draw>>,
}

impl<T: Default> Object<T> {
    /// A node over the given rectangle whose state is `T`'s default value.
    pub fn new(x: i32, y: i32, width: u32, height: u32) -> (r: Self)
        requires
            fits_i32(x as int, y as int, width as int, height as int),
        ensures
            r.rect.wf(),
            r.rect.x == x,
            r.rect.y == y,
            r.rect.width == width,
            r.rect.height == height,
            call_ensures(T::default, (), r.state),
            r.children@.len() == 0,
    {
        Object { rect: CoordinateBox::new(x, y, width, height), state: T::default(), children: Vec::new() }
    }

    /// A node over the given rectangle that holds `state`.
    pub fn new_with_state(x: i32, y: i32, width: u32, height: u32, state: T) -> (r: Self)
        requires
            fits_i32(x as int, y as int, width as int, height as int),
        ensures
            r.rect.wf(),
            r.rect.x == x,
            r.rect.y == y,
            r.rect.width == width,
            r.rect.height == height,
            r.state == state,
            r.children@.len() == 0,
    {
        Object { rect: CoordinateBox::new(x, y, width, height), state, children: Vec::new() }
    }
}

} // verus!
