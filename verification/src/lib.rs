//! Resource-lifetime and call-order bookkeeping for a native, single-threaded
//! graphics engine.
//!
//! The engine owns the GPU resources and one process-wide window, checks
//! nothing and reports next to nothing. This crate is the layer in between:
//! it counts the handles of each resource and says when the resource is to
//! be released, and it tracks the window session and the open frame and
//! turns away what would come out of order. It makes no engine call of its
//! own: every operation hands back, as `EngineCall` values, the calls that
//! are due, and takes what the engine answered as plain values.
//!
//! All of it hangs on one `EngineContext`, which the program makes once and
//! hands to every operation.

pub mod call;
pub mod color;
pub mod context;
pub mod error;
pub mod flags;
pub mod image;
pub mod keyboard;
pub mod mouse;
pub mod painter;
pub mod prelude;
pub mod raw;
pub mod rc;
pub mod render_texture;
pub mod table;
pub mod texture;
pub mod window;
