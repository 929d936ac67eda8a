use vstd::prelude::*;

use crate::color::Color;
use crate::raw::RawImage;
use crate::raw::RawRenderTexture;
use crate::raw::RawTexture;

verus! {

/// A call into the native engine that has fallen due.
///
/// This layer decides which calls are made and in what order; it makes none
/// itself. Each operation hands back the calls that it stands for, and its
/// caller issues them at once, in the order given, on the thread that owns
/// the engine.
#[derive(Debug, PartialEq, Eq)]
pub enum EngineCall {
    /// Create the window and the graphics context.
    InitWindow { width: i32, height: i32, title: String },
    /// Replace the window's state flags by this mask.
    SetWindowState(u32),
    /// Show this image as the window's icon.
    SetWindowIcon(RawImage),
    /// Make the key with this code end the main loop.
    SetExitKey(i32),
    /// Destroy the window and the graphics context.
    CloseWindow,
    /// Open a frame.
    BeginDrawing,
    /// Close the frame and present it.
    EndDrawing,
    /// Fill the frame with one colour.
    ClearBackground(Color),
    /// Release a texture.
    UnloadTexture(RawTexture),
    /// Release a render target.
    UnloadRenderTexture(RawRenderTexture),
    /// Release an image.
    UnloadImage(RawImage),
}

} // verus!
