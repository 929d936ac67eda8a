use vstd::prelude::*;

verus! {

/// A button of the mouse, as the engine names it.
#[derive(Debug, Clone, Copy, PartialEq, Eq, Structural)]
pub enum MouseButton {
    Left,
    Right,
    Middle,
    Side,
    Extra,
    Forward,
    Back,
}

/// A shape of the mouse cursor, as the engine names it.
#[derive(Debug, Clone, Copy, PartialEq, Eq, Structural)]
pub enum MouseCursor {
    Default,
    Arrow,
    Ibeam,
    CrossHair,
    PointingHand,
    ResizeEW,
    ResizeNS,
    ResizeNWSE,
    ResizeNESW,
    ResizeAll,
    NotAllowed,
}

impl MouseButton {
    /// The number by which the engine knows the button.
    pub open spec fn code_of(self) -> i32 {
        match self {
            MouseButton::Left => 0,
            MouseButton::Right => 1,
            MouseButton::Middle => 2,
            MouseButton::Side => 3,
            MouseButton::Extra => 4,
            MouseButton::Forward => 5,
            MouseButton::Back => 6,
        }
    }

    /// The number by which the engine knows the button.
    pub fn code(self) -> (code: i32)
        ensures
            code == self.code_of(),
    {
        match self {
            MouseButton::Left => 0,
            MouseButton::Right => 1,
            MouseButton::Middle => 2,
            MouseButton::Side => 3,
            MouseButton::Extra => 4,
            MouseButton::Forward => 5,
            MouseButton::Back => 6,
        }
    }

    /// The button that the engine knows by `code`, if there is one.
    pub fn from_code(code: i32) -> (button: Option<MouseButton>)
        ensures
            button matches Some(found) ==> found.code_of() == code,
            button is None ==> forall|any: MouseButton| #[trigger] any.code_of() != code,
    {
        match code {
            0 => Some(MouseButton::Left),
            1 => Some(MouseButton::Right),
            2 => Some(MouseButton::Middle),
            3 => Some(MouseButton::Side),
            4 => Some(MouseButton::Extra),
            5 => Some(MouseButton::Forward),
            6 => Some(MouseButton::Back),
            _ => None,
        }
    }
}

impl MouseCursor {
    /// The number by which the engine knows the cursor.
    pub open spec fn code_of(self) -> i32 {
        match self {
            MouseCursor::Default => 0,
            MouseCursor::Arrow => 1,
            MouseCursor::Ibeam => 2,
            MouseCursor::CrossHair => 3,
            MouseCursor::PointingHand => 4,
            MouseCursor::ResizeEW => 5,
            MouseCursor::ResizeNS => 6,
            MouseCursor::ResizeNWSE => 7,
            MouseCursor::ResizeNESW => 8,
            MouseCursor::ResizeAll => 9,
            MouseCursor::NotAllowed => 10,
        }
    }

    /// The number by which the engine knows the cursor.
    pub fn code(self) -> (code: i32)
        ensures
            code == self.code_of(),
    {
        match self {
            MouseCursor::Default => 0,
            MouseCursor::Arrow => 1,
            MouseCursor::Ibeam => 2,
            MouseCursor::CrossHair => 3,
            MouseCursor::PointingHand => 4,
            MouseCursor::ResizeEW => 5,
            MouseCursor::ResizeNS => 6,
            MouseCursor::ResizeNWSE => 7,
            MouseCursor::ResizeNESW => 8,
            MouseCursor::ResizeAll => 9,
            MouseCursor::NotAllowed => 10,
        }
    }

    /// The cursor that the engine knows by `code`, if there is one.
    pub fn from_code(code: i32) -> (cursor: Option<MouseCursor>)
        ensures
            cursor matches Some(found) ==> found.code_of() == code,
            cursor is None ==> forall|any: MouseCursor| #[trigger] any.code_of() != code,
    {
        match code {
            0 => Some(MouseCursor::Default),
            1 => Some(MouseCursor::Arrow),
            2 => Some(MouseCursor::Ibeam),
            3 => Some(MouseCursor::CrossHair),
            4 => Some(MouseCursor::PointingHand),
            5 => Some(MouseCursor::ResizeEW),
            6 => Some(MouseCursor::ResizeNS),
            7 => Some(MouseCursor::ResizeNWSE),
            8 => Some(MouseCursor::ResizeNESW),
            9 => Some(MouseCursor::ResizeAll),
            10 => Some(MouseCursor::NotAllowed),
            _ => None,
        }
    }
}

/// No two buttons share a number, and no two cursors.
pub proof fn lemma_mouse_codes_distinct(
    one: MouseButton,
    other: MouseButton,
    shape: MouseCursor,
    other_shape: MouseCursor,
)
    ensures
        one.code_of() == other.code_of() <==> one == other,
        shape.code_of() == other_shape.code_of() <==> shape == other_shape,
{
}

} // verus!
