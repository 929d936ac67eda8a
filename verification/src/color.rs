use vstd::prelude::*;

verus! {

/// A colour as red, green, blue and alpha, eight bits each.
#[derive(Debug, Clone, Copy, PartialEq, Eq, Structural)]
pub struct Color(pub u8, pub u8, pub u8, pub u8);

} // verus!
