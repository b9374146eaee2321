use vstd::prelude::*;

verus! {

/// Something that a scene node can hold as a child and ask to draw itself.
pub trait Draw {
    fn draw(&self);
}

} // verus!
