use vstd::prelude::*;

verus! {

/// A texture as the engine describes it: the id under which the GPU knows it,
/// and its shape.
#[derive(Debug, Clone, Copy, PartialEq, Eq, Structural)]
pub struct RawTexture {
    pub id: u32,
    pub width: i32,
    pub height: i32,
    pub mipmaps: i32,
    pub format: i32,
}

impl RawTexture {
    /// The probe that tells a loaded texture from the empty one that the
    /// engine hands back when loading failed: a loaded texture has an id
    /// other than zero and a positive width and height.
    pub open spec fn loaded(self) -> bool {
        self.id != 0 && self.width > 0 && self.height > 0
    }

    /// Runs the probe.
    pub fn is_loaded(&self) -> (ok: bool)
        ensures
            ok == self.loaded(),
    {
        self.id != 0 && self.width > 0 && self.height > 0
    }
}

/// A render target as the engine describes it: the id of its framebuffer,
/// the texture that takes the colour and the texture that takes the depth.
#[derive(Debug, Clone, Copy, PartialEq, Eq, Structural)]
pub struct RawRenderTexture {
    pub id: u32,
    pub texture: RawTexture,
    pub depth: RawTexture,
}

impl RawRenderTexture {
    /// The probe for a render target: its framebuffer has an id other than
    /// zero and its colour texture passes the probe for textures. The depth
    /// attachment is not asked: the engine may keep it as a buffer that has
    /// no shape of its own.
    pub open spec fn loaded(self) -> bool {
        self.id != 0 && self.texture.loaded()
    }

    /// Runs the probe.
    pub fn is_loaded(&self) -> (ok: bool)
        ensures
            ok == self.loaded(),
    {
        self.id != 0 && self.texture.is_loaded()
    }
}

/// An image in main memory as the engine describes it: where its pixels are,
/// and its shape. The address is carried as a number and never followed here.
#[derive(Debug, Clone, Copy, PartialEq, Eq, Structural)]
pub struct RawImage {
    pub data: usize,
    pub width: i32,
    pub height: i32,
    pub mipmaps: i32,
    pub format: i32,
}

impl RawImage {
    /// The probe for an image: it has pixels, and a positive width and
    /// height.
    pub open spec fn loaded(self) -> bool {
        self.data != 0 && self.width > 0 && self.height > 0
    }

    /// Runs the probe.
    pub fn is_loaded(&self) -> (ok: bool)
        ensures
            ok == self.loaded(),
    {
        self.data != 0 && self.width > 0 && self.height > 0
    }
}

} // verus!
