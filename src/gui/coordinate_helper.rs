use vstd::prelude::*;

verus! {

/// Queries about the screen that need no canvas.
pub struct GCoordinateHelper;

impl GCoordinateHelper {
    /// The middle of a screen of the given size. Odd sizes round down, so a
    /// 1921 × 1081 screen has its middle at (960, 540).
    pub fn center(screen_width: u32, screen_height: u32) -> (r: (i32, i32))
        ensures
            r.0 == screen_width / 2,
            r.1 == screen_height / 2,
    {
        ((screen_width / 2) as i32, (screen_height / 2) as i32)
    }
}

} // verus!
