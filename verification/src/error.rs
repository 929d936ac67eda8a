use vstd::prelude::*;

verus! {

/// What can go wrong at the boundary with the native engine.
///
/// The engine itself reports nothing but booleans and empty results, so each
/// variant names the check of this layer that failed.
#[derive(Debug, Clone, Copy, PartialEq, Eq, Structural)]
pub enum DiotekoErr {
    /// The engine context did not reach its ready state.
    WindowInitFailedErr,
    /// The engine handed back an empty resource in place of a loaded one.
    LoadImageFailedErr,
    /// An operation was attempted outside the engine's mandatory call order.
    ProtocolViolation,
}

impl DiotekoErr {
    /// The text of each variant, as a view.
    pub open spec fn message_text(self) -> Seq<char> {
        match self {
            DiotekoErr::WindowInitFailedErr => "Failed to initialize window"@,
            DiotekoErr::LoadImageFailedErr => "Failed to load an image"@,
            DiotekoErr::ProtocolViolation => "Engine call order violated"@,
        }
    }

    /// A human-readable description of the error.
    pub fn message(&self) -> (text: String)
        ensures
            text@ == self.message_text(),
    {
        match self {
            DiotekoErr::WindowInitFailedErr => "Failed to initialize window".to_owned(),
            DiotekoErr::LoadImageFailedErr => "Failed to load an image".to_owned(),
            DiotekoErr::ProtocolViolation => "Engine call order violated".to_owned(),
        }
    }
}

/// The result type of every fallible operation of this layer.
pub type Result<T> = core::result::Result<T, DiotekoErr>;

} // verus!
