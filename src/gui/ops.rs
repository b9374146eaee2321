use vstd::prelude::*;

verus! {

/// One request to the display server or the rendering pipeline. The canvas
/// decides which requests to make and in which order; whoever holds the
/// native handles carries them out in that order.
#[derive(Debug, PartialEq, Eq)]
pub enum NativeOp {
    /// Push buffered requests to the server.
    Flush,
    /// Make the window visible.
    MapWindow,
    /// Hide the window.
    UnmapWindow,
    /// Set the window's title.
    StoreName(String),
    /// Set the graphics context's background to this pixel value.
    SetBackground(u64),
    /// Set the graphics context's foreground to this pixel value.
    SetForeground(u64),
    /// Register this atom as the one close protocol the window takes part in.
    SetWmProtocols(u64),
    /// Clear the accelerated framebuffer to its fixed colour and flush the
    /// rendering pipeline. Drawing text through that path is not done yet.
    ClearFramebuffer,
    /// Draw a string through the graphics context, its baseline starting at
    /// `(x, y)`.
    DrawString { text: String, x: i32, y: i32 },
    /// Destroy the accelerated rendering context.
    DestroyRenderContext,
    /// Free the graphics context.
    FreeGraphicsContext,
    /// Close the connection, which also destroys the window.
    CloseDisplay,
}

} // verus!
