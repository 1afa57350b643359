//! The player's movement decisions.
//!
//! The engine reports which movement keys are pressed and which were just
//! released; [`player_movement`] decides what happens to each axis of the
//! player's velocity. The engine then applies the commands, scaled by the
//! player's speed, and moves the camera to match the player's position.

use vstd::prelude::*;

verus! {

/// The state of the movement keys for one frame.
#[derive(Debug, Clone, Copy)]
pub struct MovementKeys {
    /// The forward key is held down
    pub forward_pressed: bool,
    /// The backward key is held down
    pub backward_pressed: bool,
    /// The left key is held down
    pub left_pressed: bool,
    /// The right key is held down
    pub right_pressed: bool,
    /// The forward key was just released
    pub forward_released: bool,
    /// The backward key was just released
    pub backward_released: bool,
    /// The left key was just released
    pub left_released: bool,
    /// The right key was just released
    pub right_released: bool,
}

/// What happens to one axis of the player's velocity.
#[derive(Debug, Clone, Copy, PartialEq, Eq, Structural)]
pub enum AxisCommand {
    /// Move at full speed in the positive direction
    SetPositive,
    /// Move at full speed in the negative direction
    SetNegative,
    /// Stop moving along this axis
    SetZero,
    /// Leave the velocity along this axis alone
    Keep,
}

/// The horizontal command: releasing either horizontal key stops the axis;
/// otherwise the right key wins over the left key, and with neither held
/// the axis keeps its velocity.
pub open spec fn spec_horizontal_command(keys: MovementKeys) -> AxisCommand {
    if keys.left_released || keys.right_released {
        AxisCommand::SetZero
    } else if keys.right_pressed {
        AxisCommand::SetPositive
    } else if keys.left_pressed {
        AxisCommand::SetNegative
    } else {
        AxisCommand::Keep
    }
}

/// The vertical command: releasing either vertical key stops the axis;
/// otherwise the backward key wins over the forward key, and with neither
/// held the axis keeps its velocity.
pub open spec fn spec_vertical_command(keys: MovementKeys) -> AxisCommand {
    if keys.forward_released || keys.backward_released {
        AxisCommand::SetZero
    } else if keys.backward_pressed {
        AxisCommand::SetNegative
    } else if keys.forward_pressed {
        AxisCommand::SetPositive
    } else {
        AxisCommand::Keep
    }
}

/// Decides the player's movement for one frame: held keys push each axis
/// in their direction, and releasing a key of an axis stops that axis.
pub fn player_movement(keys: &MovementKeys) -> (commands: (AxisCommand, AxisCommand))
    ensures
        commands.0 == spec_horizontal_command(*keys),
        commands.1 == spec_vertical_command(*keys),
{
    let mut horizontal = AxisCommand::Keep;
    let mut vertical = AxisCommand::Keep;

    // Start moving
    if keys.forward_pressed {
        vertical = AxisCommand::SetPositive;
    }
    if keys.backward_pressed {
        vertical = AxisCommand::SetNegative;
    }
    if keys.left_pressed {
        horizontal = AxisCommand::SetNegative;
    }
    if keys.right_pressed {
        horizontal = AxisCommand::SetPositive;
    }

    // Stop moving
    if keys.forward_released || keys.backward_released {
        vertical = AxisCommand::SetZero;
    }
    if keys.left_released || keys.right_released {
        horizontal = AxisCommand::SetZero;
    }

    (horizontal, vertical)
}

} // verus!
