use duhnjyn::actor::{Actor, ACCELERATION_X, FRICTION_COEFFICIENT, TERMINAL_VELOCITY_X};
use duhnjyn::animation::AnimationIndices;
use duhnjyn::physics::{ContactNormal, Timestep, Vec2};
use duhnjyn::player::{PlayerInput, JUMP_SPEED};

const TICK: Timestep = Timestep { hz: 64 };

fn ground() -> Vec<ContactNormal> {
    vec![ContactNormal { x: 0, y: 1_000 }]
}

fn jump_press() -> PlayerInput {
    PlayerInput { jump: true, jump_just_pressed: true, ..PlayerInput::default() }
}

#[test]
fn spawned_actor_is_at_rest_and_idle() {
    let a = Actor::spawn();
    assert_eq!(a.velocity, Vec2::zero());
    assert_eq!(a.terminal_velocity.0, Vec2::new(50_000, 200_000));
    assert_eq!(a.acceleration.0, Vec2::new(300_000, 500_000));
    assert_eq!(a.friction.coefficient, 3_000);
    assert_eq!((a.net_direction.x, a.net_direction.y), (0, -1));
    assert!(!a.grounded);
    assert!(!a.player.can_jump);
    assert_eq!(a.animation, AnimationIndices::idling());
    assert_eq!(a.frame, 0);
}

#[test]
fn two_jump_presses_give_one_launch() {
    let mut a = Actor::spawn();
    a.fixed_update(&ground(), &PlayerInput::default(), 0, 0, TICK);
    assert!(a.grounded);
    a.frame_update(&jump_press());
    a.frame_update(&jump_press());
    assert!(a.player.can_jump);
    a.fixed_update(&ground(), &PlayerInput::default(), 0, 0, TICK);
    assert!(!a.player.can_jump);
    assert!(!a.grounded);
    // launch speed less one tick of gravity (500000 / 64, toward zero)
    assert_eq!(a.velocity.y, JUMP_SPEED - 7_812);
    a.fixed_update(&Vec::new(), &PlayerInput::default(), 0, 0, TICK);
    assert_eq!(a.velocity.y, JUMP_SPEED - 2 * 7_812);
}

#[test]
fn press_while_airborne_does_not_latch() {
    let mut a = Actor::spawn();
    a.frame_update(&jump_press());
    assert!(!a.player.can_jump);
}

#[test]
fn wall_contact_zeroes_speed_on_the_following_tick() {
    let mut a = Actor::spawn();
    a.velocity = Vec2::new(TERMINAL_VELOCITY_X, 0);
    let right = PlayerInput { move_right: true, ..PlayerInput::default() };
    let t = a.fixed_update(&ground(), &right, 0, 0, TICK);
    assert_eq!(a.velocity.x, TERMINAL_VELOCITY_X);
    assert_eq!(t.x, 781);
    // the engine reports a wall in the way of that move
    let wall = vec![ContactNormal { x: -1, y: 0 }, ContactNormal { x: 0, y: 1 }];
    a.fixed_update(&wall, &right, 0, 0, TICK);
    assert_eq!(a.velocity.x, ACCELERATION_X / 64 - FRICTION_COEFFICIENT);
}

#[test]
fn frame_update_selects_walking_while_moving_on_ground() {
    let mut a = Actor::spawn();
    let right = PlayerInput { move_right: true, ..PlayerInput::default() };
    a.fixed_update(&ground(), &right, 0, 0, TICK);
    assert!(a.frame_update(&right));
    assert_eq!(a.animation, AnimationIndices::walking());
    assert_eq!(a.frame, 6);
    assert!(!a.frame_update(&right));
    assert!(!a.flippable.flip_x);
}
