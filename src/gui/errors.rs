use vstd::prelude::*;

verus! {

/// Why a canvas could not be built. Each kind names the native resource
/// whose acquisition failed; all of them are returned at construction time.
pub enum X11Error {
    /// The display server at this identifier could not be reached.
    CouldNotOpen(String),
    /// No visual of the screen's default depth has the true-colour class.
    NoMatchingVisual,
    /// The server handed back no window.
    CouldNotCreateWindow,
    /// The server handed back no graphics context for the window.
    CouldNotCreateGC,
    /// No OpenGL rendering context could be made for the visual.
    CouldNotCreateGLContext,
}

} // verus!
