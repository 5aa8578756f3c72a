use duhnjyn::physics::{NetDirection, Vec2};
use duhnjyn::player::{
    discrete_player_input, player_movement, Player, PlayerAction, PlayerInput, JUMP_SPEED,
};
use duhnjyn::sprite_flip::{propagate_sprite_flip, FlipMirror, Flippable};

struct Moved {
    player: Player,
    velocity: Vec2,
    direction: NetDirection,
    grounded: bool,
    flip: Flippable,
}

fn run_movement(can_jump: bool, input: PlayerInput, position_x: i64, pointer_x: i64) -> Moved {
    let mut m = Moved {
        player: Player { can_jump },
        velocity: Vec2::new(1_000, -500),
        direction: NetDirection { x: 1, y: -1 },
        grounded: true,
        flip: Flippable::new(true, false),
    };
    player_movement(
        &mut m.player,
        &input,
        position_x,
        pointer_x,
        &mut m.velocity,
        &mut m.direction,
        &mut m.grounded,
        &mut m.flip,
    );
    m
}

#[test]
fn no_movement_held_clears_direction() {
    let m = run_movement(false, PlayerInput::default(), 0, 0);
    assert_eq!(m.direction.x, 0);
    assert_eq!(m.direction.y, -1);
    assert!(m.flip.flip_x);
    assert_eq!(m.velocity, Vec2::new(1_000, -500));
    assert!(m.grounded);
}

#[test]
fn move_left_faces_left() {
    let input = PlayerInput { move_left: true, ..PlayerInput::default() };
    let m = run_movement(false, input, 0, 0);
    assert_eq!(m.direction.x, -1);
    assert!(m.flip.flip_x);
}

#[test]
fn both_held_right_wins() {
    let input = PlayerInput { move_left: true, move_right: true, ..PlayerInput::default() };
    let m = run_movement(false, input, 0, 0);
    assert_eq!(m.direction.x, 1);
    assert!(!m.flip.flip_x);
}

#[test]
fn attack_faces_the_pointer() {
    let input = PlayerInput { move_right: true, attack: true, ..PlayerInput::default() };
    let m = run_movement(false, input, 100, 40);
    assert_eq!(m.direction.x, 1);
    assert!(m.flip.flip_x);
    let m = run_movement(false, input, 100, 400);
    assert!(!m.flip.flip_x);
}

#[test]
fn latched_jump_launches_once() {
    let m = run_movement(true, PlayerInput::default(), 0, 0);
    assert!(!m.player.can_jump);
    assert!(!m.grounded);
    assert_eq!(m.velocity, Vec2::new(1_000, JUMP_SPEED));
    assert_eq!(JUMP_SPEED, 200_000);
}

#[test]
fn jump_latches_only_when_grounded() {
    let press = PlayerInput { jump: true, jump_just_pressed: true, ..PlayerInput::default() };
    let mut p = Player::default();
    discrete_player_input(&mut p, &press, false);
    assert!(!p.can_jump);
    discrete_player_input(&mut p, &press, true);
    assert!(p.can_jump);
    discrete_player_input(&mut p, &press, true);
    assert!(p.can_jump);
    let held = PlayerInput { jump: true, ..PlayerInput::default() };
    let mut q = Player::default();
    discrete_player_input(&mut q, &held, true);
    assert!(!q.can_jump);
}

#[test]
fn pressed_reads_each_action() {
    let input = PlayerInput { move_right: true, attack: true, ..PlayerInput::default() };
    assert!(!input.pressed(PlayerAction::MoveLeft));
    assert!(input.pressed(PlayerAction::MoveRight));
    assert!(!input.pressed(PlayerAction::Jump));
    assert!(input.pressed(PlayerAction::Attack));
}

#[test]
fn child_takes_parent_facing() {
    let parent = Flippable::new(true, false);
    let mut child = Flippable::new(false, false);
    let m = propagate_sprite_flip(&parent, &mut child);
    assert_eq!(child, parent);
    assert_eq!(m, FlipMirror { mirror_x: true, mirror_y: false });
    let m = propagate_sprite_flip(&parent, &mut child);
    assert_eq!(m, FlipMirror { mirror_x: false, mirror_y: false });
}
