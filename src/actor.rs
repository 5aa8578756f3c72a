//! The actor record and the per-tick ordering of the movement components.
use vstd::prelude::*;
use crate::animation::{AnimationIndices, idling_clip, select_animation, selected_clip};
use crate::physics::{
    Acceleration,
    COLLISION_THRESHOLD_PERMILLE,
    ContactNormal,
    Friction,
    NetDirection,
    TerminalVelocity,
    Timestep,
    Vec2,
    apply_forces,
    collided,
    div_toward_zero,
    next_velocity_x,
    next_velocity_y,
    on_ground,
    touches_ground,
    zero_velocity_on_collision,
};
use crate::player::{
    JUMP_SPEED,
    Player,
    PlayerInput,
    commanded_direction_x,
    discrete_player_input,
    facing_x,
    latched,
    player_movement,
};
use crate::sprite_flip::Flippable;

verus! {

/// Horizontal and vertical speed caps of a freshly spawned actor.
pub const TERMINAL_VELOCITY_X: i64 = 50_000;

pub const TERMINAL_VELOCITY_Y: i64 = 200_000;

/// Horizontal and vertical acceleration of a freshly spawned actor.
pub const ACCELERATION_X: i64 = 300_000;

pub const ACCELERATION_Y: i64 = 500_000;

/// Friction coefficient of a freshly spawned actor.
pub const FRICTION_COEFFICIENT: i64 = 3_000;

/// The player's movement, facing and animation state.
#[derive(Clone, Copy, Debug, PartialEq, Eq, Structural)]
pub struct Actor {
    pub player: Player,
    pub velocity: Vec2,
    pub acceleration: Acceleration,
    pub terminal_velocity: TerminalVelocity,
    pub friction: Friction,
    pub net_direction: NetDirection,
    pub grounded: bool,
    pub flippable: Flippable,
    pub animation: AnimationIndices,
    pub frame: usize,
}

/// The velocity once a latched jump has launched the actor.
pub open spec fn launched(v: Vec2, can_jump: bool) -> Vec2 {
    if can_jump {
        Vec2 { x: v.x, y: JUMP_SPEED }
    } else {
        v
    }
}

impl Actor {
    /// Speed caps are magnitudes.
    pub open spec fn wf(self) -> bool {
        self.terminal_velocity.0.x >= 0 && self.terminal_velocity.0.y >= 0
    }

    /// The actor as it enters play: at rest, airborne until its first
    /// contact, pulled down, facing right and idle.
    pub fn spawn() -> (r: Actor)
        ensures
            r.wf(),
            r.player.can_jump == false,
            r.velocity == (Vec2 { x: 0, y: 0 }),
            r.acceleration == (Acceleration(Vec2 { x: ACCELERATION_X, y: ACCELERATION_Y })),
            r.terminal_velocity == (TerminalVelocity(
                Vec2 { x: TERMINAL_VELOCITY_X, y: TERMINAL_VELOCITY_Y },
            )),
            r.friction == (Friction { coefficient: FRICTION_COEFFICIENT }),
            r.net_direction.x == 0,
            r.net_direction.y == -1,
            r.grounded == false,
            r.flippable == (Flippable { flip_x: false, flip_y: false }),
            r.animation == idling_clip(),
            r.frame == 0,
    {
        Actor {
            player: Player { can_jump: false },
            velocity: Vec2::zero(),
            acceleration: Acceleration(Vec2::new(ACCELERATION_X, ACCELERATION_Y)),
            terminal_velocity: TerminalVelocity(Vec2::new(TERMINAL_VELOCITY_X, TERMINAL_VELOCITY_Y)),
            friction: Friction { coefficient: FRICTION_COEFFICIENT },
            net_direction: NetDirection { x: 0, y: -1 },
            grounded: false,
            flippable: Flippable::new(false, false),
            animation: AnimationIndices::idling(),
            frame: 0,
        }
    }

    /// One fixed simulation tick. `contacts` are those the collision engine
    /// reported for the previous tick's move. In order: the collision
    /// interpreter zeroes blocked axes and sets the grounded flag, the input
    /// mapper sets direction and facing and consumes the jump latch, and the
    /// force integrator advances the velocity. Returns the translation to
    /// request from the collision engine for this tick.
    pub fn fixed_update(
        &mut self,
        contacts: &Vec<ContactNormal>,
        input: &PlayerInput,
        position_x: i64,
        pointer_x: i64,
        timestep: Timestep,
    ) -> (translation: Vec2)
        requires
            old(self).wf(),
            timestep.hz > 0,
        ensures
            final(self).wf(),
            final(self).player.can_jump == false,
            final(self).grounded == (on_ground(contacts@, COLLISION_THRESHOLD_PERMILLE as int)
                && !old(self).player.can_jump),
            final(self).net_direction.x == commanded_direction_x(*input),
            final(self).net_direction.y == old(self).net_direction.y,
            final(self).flippable.flip_x == facing_x(
                old(self).flippable.flip_x,
                *input,
                position_x as int,
                pointer_x as int,
            ),
            final(self).flippable.flip_y == old(self).flippable.flip_y,
            final(self).velocity.x == next_velocity_x(
                launched(
                    collided(old(self).velocity, contacts@, COLLISION_THRESHOLD_PERMILLE as int),
                    old(self).player.can_jump,
                ),
                old(self).acceleration,
                final(self).net_direction,
                old(self).friction,
                old(self).terminal_velocity,
                timestep,
            ),
            final(self).velocity.y == next_velocity_y(
                launched(
                    collided(old(self).velocity, contacts@, COLLISION_THRESHOLD_PERMILLE as int),
                    old(self).player.can_jump,
                ),
                old(self).acceleration,
                final(self).net_direction,
                old(self).terminal_velocity,
                timestep,
            ),
            -old(self).terminal_velocity.0.x <= final(self).velocity.x
                <= old(self).terminal_velocity.0.x,
            -old(self).terminal_velocity.0.y <= final(self).velocity.y
                <= old(self).terminal_velocity.0.y,
            translation.x == div_toward_zero(final(self).velocity.x as int, timestep.hz as int),
            translation.y == div_toward_zero(final(self).velocity.y as int, timestep.hz as int),
            final(self).acceleration == old(self).acceleration,
            final(self).terminal_velocity == old(self).terminal_velocity,
            final(self).friction == old(self).friction,
            final(self).animation == old(self).animation,
            final(self).frame == old(self).frame,
    {
        zero_velocity_on_collision(contacts, COLLISION_THRESHOLD_PERMILLE, &mut self.velocity);
        self.grounded = touches_ground(contacts, COLLISION_THRESHOLD_PERMILLE);
        player_movement(
            &mut self.player,
            input,
            position_x,
            pointer_x,
            &mut self.velocity,
            &mut self.net_direction,
            &mut self.grounded,
            &mut self.flippable,
        );
        apply_forces(
            &mut self.velocity,
            &self.terminal_velocity,
            &self.friction,
            &self.acceleration,
            &self.net_direction,
            timestep,
        )
    }

    /// One rendered frame: latches a jump press observed while grounded and
    /// selects the animation clip, restarting playback only when the clip
    /// changes. Returns whether it changed, so that the clip's timer is
    /// restarted.
    pub fn frame_update(&mut self, input: &PlayerInput) -> (changed: bool)
        ensures
            final(self).player.can_jump == latched(
                old(self).player.can_jump,
                input.jump_just_pressed,
                old(self).grounded,
            ),
            final(self).animation == selected_clip(
                old(self).animation,
                old(self).frame as int,
                input.attack,
                old(self).grounded,
                old(self).net_direction.x as int,
            ),
            changed == (final(self).animation != old(self).animation),
            final(self).frame == (if changed {
                final(self).animation.first
            } else {
                old(self).frame
            }),
            final(self).velocity == old(self).velocity,
            final(self).acceleration == old(self).acceleration,
            final(self).terminal_velocity == old(self).terminal_velocity,
            final(self).friction == old(self).friction,
            final(self).net_direction == old(self).net_direction,
            final(self).grounded == old(self).grounded,
            final(self).flippable == old(self).flippable,
    {
        discrete_player_input(&mut self.player, input, self.grounded);
        select_animation(
            &mut self.animation,
            &mut self.frame,
            input.attack,
            self.grounded,
            self.net_direction.x,
        )
    }
}

/// Jump presses give at most one launch per latch: a second press before
/// the latch is consumed leaves the latch, and hence the launch, as one press
/// did; a movement tick that finds the latch clear launches nothing; and a
/// press observed once the launch has left the ground latches nothing.
pub proof fn lemma_jump_latch_single_launch(v: Vec2, can_jump: bool, grounded: bool)
    ensures
        latched(latched(can_jump, true, grounded), true, grounded) == latched(
            can_jump,
            true,
            grounded,
        ),
        launched(v, latched(latched(can_jump, true, grounded), true, grounded)) == launched(
            v,
            latched(can_jump, true, grounded),
        ),
        launched(v, latched(false, false, grounded)) == v,
        latched(false, true, false) == false,
{
}

} // verus!
