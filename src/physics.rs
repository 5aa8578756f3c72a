//! Movement state, the collision interpreter and the force integrator.
use vstd::prelude::*;

verus! {

/// A two-dimensional integer vector (a velocity, an acceleration or a
/// translation), in the host's fixed-point unit.
#[derive(Clone, Copy, Debug, PartialEq, Eq, Structural)]
pub struct Vec2 {
    pub x: i64,
    pub y: i64,
}

impl Vec2 {
    pub fn new(x: i64, y: i64) -> (r: Vec2)
        ensures
            r.x == x,
            r.y == y,
    {
        Vec2 { x, y }
    }

    pub fn zero() -> (r: Vec2)
        ensures
            r.x == 0,
            r.y == 0,
    {
        Vec2 { x: 0, y: 0 }
    }
}

/// The outward normal of one contact reported by the collision engine.
/// Only its direction matters; it need not be of unit length.
#[derive(Clone, Copy, Debug, PartialEq, Eq, Structural)]
pub struct ContactNormal {
    pub x: i32,
    pub y: i32,
}

/// Threshold, in thousandths, above which a normal's alignment with an
/// axis makes the contact block that axis.
pub const COLLISION_THRESHOLD_PERMILLE: u16 = 800;

/// A normal with component `along` on the axis and `across` on the other
/// axis blocks the axis when `|along| / |normal| > threshold / 1000`, that
/// is when the absolute cosine between normal and axis exceeds the
/// threshold. Squared, so that no root is taken; a zero normal never blocks.
pub open spec fn blocks_axis(along: int, across: int, threshold_permille: int) -> bool {
    along * along * 1_000_000 > threshold_permille * threshold_permille * (along * along
        + across * across)
}

pub open spec fn blocks_horizontally(n: ContactNormal, threshold_permille: int) -> bool {
    blocks_axis(n.x as int, n.y as int, threshold_permille)
}

pub open spec fn blocks_vertically(n: ContactNormal, threshold_permille: int) -> bool {
    blocks_axis(n.y as int, n.x as int, threshold_permille)
}

/// Some contact of the list blocks the horizontal axis.
pub open spec fn any_blocks_horizontally(
    contacts: Seq<ContactNormal>,
    threshold_permille: int,
) -> bool {
    exists|i: int| 0 <= i < contacts.len() && #[trigger] blocks_horizontally(contacts[i], threshold_permille)
}

/// Some contact of the list blocks the vertical axis.
pub open spec fn any_blocks_vertically(contacts: Seq<ContactNormal>, threshold_permille: int) -> bool {
    exists|i: int| 0 <= i < contacts.len() && #[trigger] blocks_vertically(contacts[i], threshold_permille)
}

proof fn lemma_any_blocks_push(contacts: Seq<ContactNormal>, n: ContactNormal, t: int)
    ensures
        any_blocks_horizontally(contacts.push(n), t) == (any_blocks_horizontally(contacts, t)
            || blocks_horizontally(n, t)),
        any_blocks_vertically(contacts.push(n), t) == (any_blocks_vertically(contacts, t)
            || blocks_vertically(n, t)),
{
    let pushed = contacts.push(n);
    let last = contacts.len() as int;
    assert(pushed[last] == n);
    if blocks_horizontally(n, t) {
        assert(blocks_horizontally(pushed[last], t));
    }
    if blocks_vertically(n, t) {
        assert(blocks_vertically(pushed[last], t));
    }
    if any_blocks_horizontally(contacts, t) {
        let j = choose|j: int| 0 <= j < contacts.len() && #[trigger] blocks_horizontally(contacts[j], t);
        assert(pushed[j] == contacts[j]);
        assert(blocks_horizontally(pushed[j], t));
    }
    if any_blocks_vertically(contacts, t) {
        let j = choose|j: int| 0 <= j < contacts.len() && #[trigger] blocks_vertically(contacts[j], t);
        assert(pushed[j] == contacts[j]);
        assert(blocks_vertically(pushed[j], t));
    }
    if any_blocks_horizontally(pushed, t) && !blocks_horizontally(n, t) {
        let j = choose|j: int| 0 <= j < pushed.len() && #[trigger] blocks_horizontally(pushed[j], t);
        assert(j != last);
        assert(pushed[j] == contacts[j]);
        assert(blocks_horizontally(contacts[j], t));
    }
    if any_blocks_vertically(pushed, t) && !blocks_vertically(n, t) {
        let j = choose|j: int| 0 <= j < pushed.len() && #[trigger] blocks_vertically(pushed[j], t);
        assert(j != last);
        assert(pushed[j] == contacts[j]);
        assert(blocks_vertically(contacts[j], t));
    }
}

/// Some contact blocks the vertical axis with a normal pointing up, that is
/// a surface beneath the actor.
pub open spec fn on_ground(contacts: Seq<ContactNormal>, threshold_permille: int) -> bool {
    exists|i: int|
        0 <= i < contacts.len() && #[trigger] blocks_vertically(contacts[i], threshold_permille)
            && contacts[i].y > 0
}

/// The velocity once every axis that some contact blocks is zeroed.
pub open spec fn collided(v: Vec2, contacts: Seq<ContactNormal>, threshold_permille: int) -> Vec2 {
    Vec2 {
        x: if any_blocks_horizontally(contacts, threshold_permille) {
            0
        } else {
            v.x
        },
        y: if any_blocks_vertically(contacts, threshold_permille) {
            0
        } else {
            v.y
        },
    }
}

/// Decides `blocks_axis` in 128-bit arithmetic, which cannot overflow for
/// 32-bit components and a 16-bit threshold.
fn exceeds_threshold(along: i32, across: i32, threshold_permille: u16) -> (r: bool)
    ensures
        r == blocks_axis(along as int, across as int, threshold_permille as int),
{
    let a = along as i128;
    let c = across as i128;
    let t = threshold_permille as i128;
    proof {
        assert(0 <= a * a <= 0x4000_0000_0000_0000) by (nonlinear_arith)
            requires
                -0x8000_0000 <= a <= 0x7fff_ffff,
        ;
        assert(0 <= c * c <= 0x4000_0000_0000_0000) by (nonlinear_arith)
            requires
                -0x8000_0000 <= c <= 0x7fff_ffff,
        ;
        assert(0 <= t * t <= 0x1_0000_0000) by (nonlinear_arith)
            requires
                0 <= t <= 0xffff,
        ;
        assert(0 <= (t * t) * (a * a + c * c) <= 0x1_0000_0000 * 0x8000_0000_0000_0000)
            by (nonlinear_arith)
            requires
                0 <= t * t <= 0x1_0000_0000,
                0 <= a * a + c * c <= 0x8000_0000_0000_0000,
        ;
    }
    let aa = a * a;
    let cc = c * c;
    let tt = t * t;
    aa * 1_000_000 > tt * (aa + cc)
}

pub fn is_colliding_horizontally(normal: ContactNormal, threshold_permille: u16) -> (r: bool)
    ensures
        r == blocks_horizontally(normal, threshold_permille as int),
{
    exceeds_threshold(normal.x, normal.y, threshold_permille)
}

pub fn is_colliding_vertically(normal: ContactNormal, threshold_permille: u16) -> (r: bool)
    ensures
        r == blocks_vertically(normal, threshold_permille as int),
{
    exceeds_threshold(normal.y, normal.x, threshold_permille)
}

/// Collision interpreter: zeroes the velocity along each axis that some
/// contact of the previous move blocks, and leaves the other axis alone.
pub fn zero_velocity_on_collision(
    contacts: &Vec<ContactNormal>,
    threshold_permille: u16,
    velocity: &mut Vec2,
)
    ensures
        *final(velocity) == collided(*old(velocity), contacts@, threshold_permille as int),
{
    let ghost t = threshold_permille as int;
    let ghost start = *velocity;
    let mut i: usize = 0;
    while i < contacts.len()
        invariant
            i <= contacts@.len(),
            t == threshold_permille as int,
            velocity.x == (if any_blocks_horizontally(contacts@.take(i as int), t) {
                0
            } else {
                start.x
            }),
            velocity.y == (if any_blocks_vertically(contacts@.take(i as int), t) {
                0
            } else {
                start.y
            }),
        decreases contacts@.len() - i,
    {
        let normal = contacts[i];
        let ghost before = contacts@.take(i as int);
        let ghost after = contacts@.take(i + 1);
        if is_colliding_horizontally(normal, threshold_permille) {
            velocity.x = 0;
        }
        if is_colliding_vertically(normal, threshold_permille) {
            velocity.y = 0;
        }
        proof {
            assert(after == before.push(normal));
            lemma_any_blocks_push(before, normal, t);
        }
        i = i + 1;
    }
    proof {
        assert(contacts@.take(contacts@.len() as int) == contacts@);
    }
}

/// Per-axis absolute speed cap.
#[derive(Clone, Copy, Debug, PartialEq, Eq, Structural)]
pub struct TerminalVelocity(pub Vec2);

/// Per-axis acceleration applied for each unit of net direction, per second.
#[derive(Clone, Copy, Debug, PartialEq, Eq, Structural)]
pub struct Acceleration(pub Vec2);

/// Commanded direction on each axis, one of -1, 0 and 1.
#[derive(Clone, Copy, Debug, PartialEq, Eq, Structural)]
pub struct NetDirection {
    pub x: i8,
    pub y: i8,
}

/// Horizontal speed lost per tick, as a flat decrement that does not
/// depend on the timestep.
#[derive(Clone, Copy, Debug, PartialEq, Eq, Structural)]
pub struct Friction {
    pub coefficient: i64,
}

/// The fixed simulation timestep, given as ticks per second: `dt = 1 / hz`.
#[derive(Clone, Copy, Debug, PartialEq, Eq, Structural)]
pub struct Timestep {
    pub hz: u32,
}

/// Integer division that rounds toward zero, as scaling by the timestep does.
pub open spec fn div_toward_zero(a: int, d: int) -> int {
    if a >= 0 {
        a / d
    } else {
        -((-a) / d)
    }
}

/// `v` limited to `[-bound, bound]`.
pub open spec fn clamp_abs(v: int, bound: int) -> int {
    if v > bound {
        bound
    } else if v < -bound {
        -bound
    } else {
        v
    }
}

/// Friction opposes the current sign of `v` and never carries it past zero.
pub open spec fn apply_friction(v: int, coefficient: int) -> int {
    if v > 0 {
        if v - coefficient > 0 {
            v - coefficient
        } else {
            0
        }
    } else if v < 0 {
        if v + coefficient < 0 {
            v + coefficient
        } else {
            0
        }
    } else {
        0
    }
}

/// Velocity change over one tick from acceleration along a direction.
pub open spec fn accelerated(v: int, acceleration: int, direction: int, hz: int) -> int {
    v + div_toward_zero(acceleration * direction, hz)
}

/// Horizontal velocity after one integration step: acceleration, then
/// friction, then the terminal-velocity clamp.
pub open spec fn next_velocity_x(
    v: Vec2,
    acceleration: Acceleration,
    direction: NetDirection,
    friction: Friction,
    terminal: TerminalVelocity,
    timestep: Timestep,
) -> int {
    clamp_abs(
        apply_friction(
            accelerated(v.x as int, acceleration.0.x as int, direction.x as int, timestep.hz as int),
            friction.coefficient as int,
        ),
        terminal.0.x as int,
    )
}

/// Vertical velocity after one integration step: acceleration, then the
/// terminal-velocity clamp (friction acts horizontally only).
pub open spec fn next_velocity_y(
    v: Vec2,
    acceleration: Acceleration,
    direction: NetDirection,
    terminal: TerminalVelocity,
    timestep: Timestep,
) -> int {
    clamp_abs(
        accelerated(v.y as int, acceleration.0.y as int, direction.y as int, timestep.hz as int),
        terminal.0.y as int,
    )
}

/// Terminal velocities are magnitudes, and a tick has a positive rate.
pub open spec fn integration_inputs_valid(terminal: TerminalVelocity, timestep: Timestep) -> bool {
    terminal.0.x >= 0 && terminal.0.y >= 0 && timestep.hz > 0
}

fn div_toward_zero_exec(a: i128, d: i128) -> (r: i128)
    requires
        d > 0,
        a > i128::MIN,
    ensures
        r == div_toward_zero(a as int, d as int),
        a >= 0 ==> 0 <= r <= a,
        a < 0 ==> a <= r <= 0,
{
    if a >= 0 {
        proof {
            assert(0 <= a / d <= a) by (nonlinear_arith)
                requires
                    a >= 0,
                    d > 0,
            ;
        }
        a / d
    } else {
        let m = -a;
        proof {
            assert(0 <= m / d <= m) by (nonlinear_arith)
                requires
                    m >= 0,
                    d > 0,
            ;
        }
        -(m / d)
    }
}

fn clamp_abs_exec(v: i128, bound: i64) -> (r: i64)
    requires
        bound >= 0,
    ensures
        r == clamp_abs(v as int, bound as int),
{
    if v > bound as i128 {
        bound
    } else if v < -(bound as i128) {
        -bound
    } else {
        v as i64
    }
}

fn apply_friction_exec(v: i128, coefficient: i64) -> (r: i128)
    requires
        -0x1000_0000_0000_0000_0000_0000 <= v <= 0x1000_0000_0000_0000_0000_0000,
    ensures
        r == apply_friction(v as int, coefficient as int),
{
    let f = coefficient as i128;
    if v > 0 {
        if v - f > 0 {
            v - f
        } else {
            0
        }
    } else if v < 0 {
        if v + f < 0 {
            v + f
        } else {
            0
        }
    } else {
        0
    }
}

fn accelerated_exec(v: i64, acceleration: i64, direction: i8, hz: u32) -> (r: i128)
    requires
        hz > 0,
    ensures
        r == accelerated(v as int, acceleration as int, direction as int, hz as int),
        -0x1000_0000_0000_0000_0000_0000 <= r <= 0x1000_0000_0000_0000_0000_0000,
{
    let a = acceleration as i128;
    let d = direction as i128;
    proof {
        assert(-0x8000_0000_0000_0000 * 0x80 <= a * d <= 0x8000_0000_0000_0000 * 0x80)
            by (nonlinear_arith)
            requires
                -0x8000_0000_0000_0000 <= a <= 0x7fff_ffff_ffff_ffff,
                -0x80 <= d <= 0x7f,
        ;
    }
    let delta = div_toward_zero_exec(a * d, hz as i128);
    v as i128 + delta
}

/// Whether the contacts of the previous move hold the actor up: some
/// contact blocks vertically with a normal that points up.
pub fn touches_ground(contacts: &Vec<ContactNormal>, threshold_permille: u16) -> (r: bool)
    ensures
        r == on_ground(contacts@, threshold_permille as int),
{
    let mut i: usize = 0;
    while i < contacts.len()
        invariant
            i <= contacts@.len(),
            forall|j: int|
                0 <= j < i ==> !(#[trigger] blocks_vertically(contacts@[j], threshold_permille as int)
                    && contacts@[j].y > 0),
        decreases contacts@.len() - i,
    {
        let normal = contacts[i];
        if normal.y > 0 && is_colliding_vertically(normal, threshold_permille) {
            return true;
        }
        i = i + 1;
    }
    false
}

/// Force integrator: advances the velocity by one tick of acceleration
/// along the net direction, applies friction against the current
/// horizontal motion without letting it reverse that motion, clamps each
/// axis to the terminal velocity, and returns the translation requested
/// for this tick, `velocity * dt` rounded toward zero.
pub fn apply_forces(
    velocity: &mut Vec2,
    terminal_velocity: &TerminalVelocity,
    friction: &Friction,
    acceleration: &Acceleration,
    net_direction: &NetDirection,
    timestep: Timestep,
) -> (translation: Vec2)
    requires
        integration_inputs_valid(*terminal_velocity, timestep),
    ensures
        final(velocity).x == next_velocity_x(
            *old(velocity),
            *acceleration,
            *net_direction,
            *friction,
            *terminal_velocity,
            timestep,
        ),
        final(velocity).y == next_velocity_y(
            *old(velocity),
            *acceleration,
            *net_direction,
            *terminal_velocity,
            timestep,
        ),
        -terminal_velocity.0.x <= final(velocity).x <= terminal_velocity.0.x,
        -terminal_velocity.0.y <= final(velocity).y <= terminal_velocity.0.y,
        translation.x == div_toward_zero(final(velocity).x as int, timestep.hz as int),
        translation.y == div_toward_zero(final(velocity).y as int, timestep.hz as int),
{
    let hz = timestep.hz;
    let vx = accelerated_exec(velocity.x, acceleration.0.x, net_direction.x, hz);
    let vx = apply_friction_exec(vx, friction.coefficient);
    let vy = accelerated_exec(velocity.y, acceleration.0.y, net_direction.y, hz);
    velocity.x = clamp_abs_exec(vx, terminal_velocity.0.x);
    velocity.y = clamp_abs_exec(vy, terminal_velocity.0.y);
    let tx = div_toward_zero_exec(velocity.x as i128, hz as i128);
    let ty = div_toward_zero_exec(velocity.y as i128, hz as i128);
    Vec2 { x: tx as i64, y: ty as i64 }
}

/// The force applied on one tick: acceleration, direction and friction.
#[derive(Clone, Copy, Debug, PartialEq, Eq, Structural)]
pub struct ForceStep {
    pub acceleration: Acceleration,
    pub direction: NetDirection,
    pub friction: Friction,
}

/// The velocity after integrating each step of `steps` in order, from `v`.
pub open spec fn velocity_after(
    v: Vec2,
    steps: Seq<ForceStep>,
    terminal: TerminalVelocity,
    timestep: Timestep,
) -> Vec2
    decreases steps.len(),
{
    if steps.len() == 0 {
        v
    } else {
        let before = velocity_after(v, steps.drop_last(), terminal, timestep);
        let s = steps.last();
        Vec2 {
            x: next_velocity_x(before, s.acceleration, s.direction, s.friction, terminal, timestep) as i64,
            y: next_velocity_y(before, s.acceleration, s.direction, terminal, timestep) as i64,
        }
    }
}

/// Over any sequence of integration steps from any starting velocity, the
/// velocity after each step lies within the terminal velocity on each axis.
pub proof fn lemma_terminal_velocity_over_steps(
    v: Vec2,
    steps: Seq<ForceStep>,
    terminal: TerminalVelocity,
    timestep: Timestep,
)
    requires
        integration_inputs_valid(terminal, timestep),
    ensures
        forall|k: int|
            0 < k <= steps.len() ==> {
                let after = #[trigger] velocity_after(v, steps.take(k), terminal, timestep);
                -terminal.0.x <= after.x <= terminal.0.x && -terminal.0.y <= after.y
                    <= terminal.0.y
            },
{
    assert forall|k: int| 0 < k <= steps.len() implies {
        let after = #[trigger] velocity_after(v, steps.take(k), terminal, timestep);
        -terminal.0.x <= after.x <= terminal.0.x && -terminal.0.y <= after.y <= terminal.0.y
    } by {
        let prefix = steps.take(k);
        let before = velocity_after(v, prefix.drop_last(), terminal, timestep);
        let s = prefix.last();
        lemma_terminal_velocity_bound(before, s.acceleration, s.direction, s.friction, terminal, timestep);
    }
}

/// After any integration step, from any velocity and under any
/// acceleration, direction and friction, each axis of the velocity lies
/// within its terminal velocity; so it does after every step of any
/// sequence of steps.
pub proof fn lemma_terminal_velocity_bound(
    v: Vec2,
    acceleration: Acceleration,
    direction: NetDirection,
    friction: Friction,
    terminal: TerminalVelocity,
    timestep: Timestep,
)
    requires
        integration_inputs_valid(terminal, timestep),
    ensures
        -terminal.0.x <= next_velocity_x(v, acceleration, direction, friction, terminal, timestep)
            <= terminal.0.x,
        -terminal.0.y <= next_velocity_y(v, acceleration, direction, terminal, timestep)
            <= terminal.0.y,
{
}

/// Friction alone never reverses the direction of motion: a positive speed
/// ends between zero and where it was, a negative one likewise, and a
/// coefficient of zero leaves the speed unchanged.
pub proof fn lemma_friction_never_reverses(v: int, coefficient: int)
    requires
        coefficient >= 0,
    ensures
        v >= 0 ==> 0 <= apply_friction(v, coefficient) <= v,
        v <= 0 ==> v <= apply_friction(v, coefficient) <= 0,
        v > 0 && v <= coefficient ==> apply_friction(v, coefficient) == 0,
        v < 0 && -v <= coefficient ==> apply_friction(v, coefficient) == 0,
        coefficient == 0 ==> apply_friction(v, coefficient) == v,
{
}

/// A contact whose normal is a pure horizontal (or vertical) vector blocks
/// that axis and not the other one, for any threshold below one.
pub proof fn lemma_axis_aligned_normal_blocks_its_axis(length: int, threshold_permille: int)
    requires
        length != 0,
        0 <= threshold_permille < 1000,
    ensures
        blocks_axis(length, 0, threshold_permille),
        !blocks_axis(0, length, threshold_permille),
{
    assert(length * length > 0) by (nonlinear_arith)
        requires
            length != 0,
    ;
    assert(threshold_permille * threshold_permille < 1_000_000) by (nonlinear_arith)
        requires
            0 <= threshold_permille < 1000,
    ;
    assert(length * length * 1_000_000 > threshold_permille * threshold_permille * (length
        * length)) by (nonlinear_arith)
        requires
            length * length > 0,
            threshold_permille * threshold_permille < 1_000_000,
    ;
}

/// A normal at exactly 45 degrees to the axes blocks neither axis when the
/// threshold is at least 0.708 (above the cosine of 45 degrees, about 0.7071).
pub proof fn lemma_diagonal_normal_blocks_neither(a: int, b: int, threshold_permille: int)
    requires
        a == b || a == -b,
        threshold_permille >= 708,
    ensures
        !blocks_axis(a, b, threshold_permille),
        !blocks_axis(b, a, threshold_permille),
{
    assert(a * a == b * b) by (nonlinear_arith)
        requires
            a == b || a == -b,
    ;
    assert(threshold_permille * threshold_permille >= 708 * 708) by (nonlinear_arith)
        requires
            threshold_permille >= 708,
    ;
    assert(a * a >= 0) by (nonlinear_arith);
    assert(a * a * 1_000_000 <= threshold_permille * threshold_permille * (a * a + b * b))
        by (nonlinear_arith)
        requires
            a * a == b * b,
            a * a >= 0,
            threshold_permille * threshold_permille >= 708 * 708,
    ;
}

} // verus!
