//! The input-to-direction mapper and the jump latch.
use vstd::prelude::*;
use crate::physics::{NetDirection, Vec2};
use crate::sprite_flip::Flippable;

verus! {

/// Launch speed given to the vertical velocity by a jump.
pub const JUMP_SPEED: i64 = 200_000;

/// The discrete actions a player can take.
#[derive(Clone, Copy, Debug, PartialEq, Eq, Structural, Hash)]
pub enum PlayerAction {
    MoveLeft,
    MoveRight,
    Jump,
    Attack,
}

/// What the input source reports for one tick: which actions are held, and
/// whether the jump press was first observed on this tick.
#[derive(Clone, Copy, Debug, Default, PartialEq, Eq, Structural)]
pub struct PlayerInput {
    pub move_left: bool,
    pub move_right: bool,
    pub jump: bool,
    pub attack: bool,
    pub jump_just_pressed: bool,
}

impl PlayerInput {
    pub open spec fn held(self, action: PlayerAction) -> bool {
        match action {
            PlayerAction::MoveLeft => self.move_left,
            PlayerAction::MoveRight => self.move_right,
            PlayerAction::Jump => self.jump,
            PlayerAction::Attack => self.attack,
        }
    }

    /// Whether `action` is held on this tick.
    pub fn pressed(&self, action: PlayerAction) -> (r: bool)
        ensures
            r == self.held(action),
    {
        match action {
            PlayerAction::MoveLeft => self.move_left,
            PlayerAction::MoveRight => self.move_right,
            PlayerAction::Jump => self.jump,
            PlayerAction::Attack => self.attack,
        }
    }
}

/// The player's own state: the edge-triggered jump latch.
#[derive(Clone, Copy, Debug, Default, PartialEq, Eq, Structural)]
pub struct Player {
    pub can_jump: bool,
}

/// The latch after an input tick: set by a jump press first observed while
/// grounded, otherwise kept as it was.
pub open spec fn latched(can_jump: bool, jump_just_pressed: bool, grounded: bool) -> bool {
    can_jump || (jump_just_pressed && grounded)
}

/// Horizontal direction commanded by the held movement actions; when both
/// are held, right wins.
pub open spec fn commanded_direction_x(input: PlayerInput) -> int {
    if input.move_right {
        1
    } else if input.move_left {
        -1
    } else {
        0
    }
}

/// Facing after a movement tick: towards the movement, unless an attack is
/// held, which faces the pointer (mirrored when the pointer is to the left).
pub open spec fn facing_x(old_flip_x: bool, input: PlayerInput, position_x: int, pointer_x: int) -> bool {
    if input.attack {
        position_x > pointer_x
    } else if input.move_right {
        false
    } else if input.move_left {
        true
    } else {
        old_flip_x
    }
}

/// Input tick: latches a jump pressed while grounded.
pub fn discrete_player_input(player: &mut Player, input: &PlayerInput, grounded: bool)
    ensures
        final(player).can_jump == latched(old(player).can_jump, input.jump_just_pressed, grounded),
{
    if input.jump_just_pressed && grounded {
        player.can_jump = true;
    }
}

/// Movement tick: sets the horizontal net direction and the facing from the
/// held actions, and consumes the jump latch, which launches the player
/// upwards at `JUMP_SPEED` and leaves the ground.
pub fn player_movement(
    player: &mut Player,
    input: &PlayerInput,
    position_x: i64,
    pointer_x: i64,
    velocity: &mut Vec2,
    net_direction: &mut NetDirection,
    grounded: &mut bool,
    flippable: &mut Flippable,
)
    ensures
        final(player).can_jump == false,
        final(net_direction).x == commanded_direction_x(*input),
        final(net_direction).y == old(net_direction).y,
        final(flippable).flip_x == facing_x(
            old(flippable).flip_x,
            *input,
            position_x as int,
            pointer_x as int,
        ),
        final(flippable).flip_y == old(flippable).flip_y,
        final(velocity).x == old(velocity).x,
        final(velocity).y == (if old(player).can_jump {
            JUMP_SPEED
        } else {
            old(velocity).y
        }),
        *final(grounded) == (*old(grounded) && !old(player).can_jump),
{
    if !input.pressed(PlayerAction::MoveLeft) && !input.pressed(PlayerAction::MoveRight) {
        net_direction.x = 0;
    }
    if input.pressed(PlayerAction::MoveLeft) {
        net_direction.x = -1;
        flippable.flip_x = true;
    }
    if input.pressed(PlayerAction::MoveRight) {
        net_direction.x = 1;
        flippable.flip_x = false;
    }
    if input.pressed(PlayerAction::Attack) {
        flippable.flip_x = position_x > pointer_x;
    }
    if player.can_jump {
        player.can_jump = false;
        *grounded = false;
        velocity.y = JUMP_SPEED;
    }
}

} // verus!
