use vstd::prelude::*;

use crate::call::EngineCall;
use crate::error::DiotekoErr;
use crate::raw::RawImage;

verus! {

/// An image in main memory, owned: whoever holds the value answers for
/// handing the pixels back to the engine, once.
#[derive(Debug)]
pub struct Image {
    image: RawImage,
}

impl Image {
    /// The image that the value stands for.
    pub closed spec fn raw(&self) -> RawImage {
        self.image
    }

    /// Takes over an image that the engine was just asked to create, from a
    /// file, from memory, from the screen or as a copy of another.
    ///
    /// The engine reports a failure by an empty image, so `created` is put to
    /// the probe first.
    pub fn load(created: RawImage) -> (loaded: Result<Image, DiotekoErr>)
        ensures
            loaded is Ok <==> created.loaded(),
            loaded matches Ok(image) ==> image.raw() == created,
            loaded matches Err(e) ==> e == DiotekoErr::LoadImageFailedErr,
    {
        if created.is_loaded() {
            Ok(Image { image: created })
        } else {
            Err(DiotekoErr::LoadImageFailedErr)
        }
    }

    /// The image as the engine describes it, for a call that only reads it.
    /// The value stays the owner.
    pub fn take_raw(&self) -> (raw: RawImage)
        ensures
            raw == self.raw(),
    {
        self.image
    }

    /// Gives up the image: the engine's release call for it falls due, and
    /// is handed back for the caller to issue.
    pub fn drop(self) -> (call: EngineCall)
        ensures
            call == EngineCall::UnloadImage(self.raw()),
    {
        EngineCall::UnloadImage(self.image)
    }
}

} // verus!
