pub use crate::call::EngineCall;
pub use crate::color::Color;
pub use crate::context::EngineContext;
pub use crate::context::EngineEvent;
pub use crate::context::SessionState;
pub use crate::error::DiotekoErr;
pub use crate::flags::ConfigFlag;
pub use crate::flags::ConfigFlagSet;
pub use crate::image::Image;
pub use crate::keyboard::Key;
pub use crate::mouse::MouseButton;
pub use crate::mouse::MouseCursor;
pub use crate::painter::Painter;
pub use crate::raw::RawImage;
pub use crate::raw::RawRenderTexture;
pub use crate::raw::RawTexture;
pub use crate::render_texture::RenderTexture;
pub use crate::render_texture::WeakRenderTexture;
pub use crate::table::RcTable;
pub use crate::texture::Texture;
pub use crate::texture::WeakTexture;
pub use crate::window::Window;
pub use crate::window::WindowBuilder;
