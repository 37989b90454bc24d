//! The free camera's response to the keyboard.

use vstd::prelude::*;
use crate::app::KeyStates;

verus! {

/// A direction that the camera moves in.
#[derive(Clone, Copy, Debug, PartialEq, Eq, Structural)]
pub enum CameraDirection {
    Forward,
    Backward,
    Left,
    Right,
    Up,
    Down,
}

/// One of the camera's own axes.
#[derive(Clone, Copy, Debug, PartialEq, Eq, Structural)]
pub enum CameraAxis {
    Front,
    Right,
    Up,
}

/// A move along one of the camera's axes, with or against it.
#[derive(Clone, Copy, Debug, PartialEq, Eq, Structural)]
pub struct Translation {
    pub axis: CameraAxis,
    pub along: bool,
}

impl CameraDirection {
    /// The axis that the camera moves on in this direction, and whether it
    /// moves along the axis or against it. The up axis points down on the
    /// screen, so up is against it.
    pub open spec fn spec_translation(self) -> Translation {
        match self {
            CameraDirection::Forward => Translation { axis: CameraAxis::Front, along: true },
            CameraDirection::Backward => Translation { axis: CameraAxis::Front, along: false },
            CameraDirection::Left => Translation { axis: CameraAxis::Right, along: false },
            CameraDirection::Right => Translation { axis: CameraAxis::Right, along: true },
            CameraDirection::Up => Translation { axis: CameraAxis::Up, along: false },
            CameraDirection::Down => Translation { axis: CameraAxis::Up, along: true },
        }
    }

    /// The axis that the camera moves on in this direction, and whether it
    /// moves along the axis or against it.
    #[verifier::when_used_as_spec(spec_translation)]
    pub fn translation(self) -> (translation: Translation)
        ensures
            translation == self.spec_translation(),
    {
        match self {
            CameraDirection::Forward => Translation { axis: CameraAxis::Front, along: true },
            CameraDirection::Backward => Translation { axis: CameraAxis::Front, along: false },
            CameraDirection::Left => Translation { axis: CameraAxis::Right, along: false },
            CameraDirection::Right => Translation { axis: CameraAxis::Right, along: true },
            CameraDirection::Up => Translation { axis: CameraAxis::Up, along: false },
            CameraDirection::Down => Translation { axis: CameraAxis::Up, along: true },
        }
    }
}

/// `direction` if its key is down, else nothing.
pub open spec fn move_if(pressed: bool, direction: CameraDirection) -> Seq<CameraDirection> {
    if pressed {
        seq![direction]
    } else {
        Seq::empty()
    }
}

/// The moves of one update, in the order in which they are applied: W
/// forward, A left, S backward, D right, left shift down, space up.
pub open spec fn movements_of(keys: KeyStates) -> Seq<CameraDirection> {
    move_if(keys.w, CameraDirection::Forward) + move_if(keys.a, CameraDirection::Left) + move_if(
        keys.s,
        CameraDirection::Backward,
    ) + move_if(keys.d, CameraDirection::Right) + move_if(
        keys.left_shift,
        CameraDirection::Down,
    ) + move_if(keys.space, CameraDirection::Up)
}

/// The moves that the camera makes in one update for the keys that are down.
pub fn movements(keys: &KeyStates) -> (directions: Vec<CameraDirection>)
    ensures
        directions@ == movements_of(*keys),
{
    let mut directions: Vec<CameraDirection> = Vec::new();
    if keys.w {
        directions.push(CameraDirection::Forward);
    }
    if keys.a {
        directions.push(CameraDirection::Left);
    }
    if keys.s {
        directions.push(CameraDirection::Backward);
    }
    if keys.d {
        directions.push(CameraDirection::Right);
    }
    if keys.left_shift {
        directions.push(CameraDirection::Down);
    }
    if keys.space {
        directions.push(CameraDirection::Up);
    }
    directions
}

} // verus!
