use vstd::arithmetic::div_mod::lemma_div_basics_5;
use vstd::prelude::*;

verus! {

/// Thousandths in one unit of length, mass, stiffness or time.
pub const SCALE: i64 = 1000;

/// The fixed frame timestep: 0.016 time units, about one frame at 60 Hz.
pub const TIMESTEP: u16 = 16;

/// The floor that the mass is clamped to after each update: 6.0.
pub const MIN_MASS: i64 = 6000;

/// What one key press adds to or takes from the mass: 5.0.
pub const MASS_STEP: i64 = 5000;

/// How far the rest position lies up and to the left of the screen's centre: 50.0.
pub const REST_OFFSET: i64 = 50_000;

/// The magnitude of an integer.
pub open spec fn magnitude(a: int) -> int {
    if a < 0 { -a } else { a }
}

/// `a / b` rounded toward zero, as Rust's integer `/` rounds.
pub open spec fn quot(a: int, b: int) -> int {
    let q = magnitude(a) / magnitude(b);
    if (a < 0) == (b < 0) { q } else { -q }
}

/// `x`, held to the range of `i64`.
pub open spec fn saturate(x: int) -> int {
    if x > i64::MAX {
        i64::MAX as int
    } else if x < i64::MIN {
        i64::MIN as int
    } else {
        x
    }
}

/// The velocity after one step of `dt` on a spring of stiffness `k` holding a mass `m`,
/// starting from velocity `v` at displacement `d`, all in thousandths.
///
/// The restoring force is `-k * |d|` along the unit direction of `d`, which is `-k * d`;
/// it acts for `dt` on the mass `m`.
pub open spec fn spring_velocity(v: int, d: int, k: int, m: int, dt: int) -> int {
    saturate(v + quot(-(dt * k * d), SCALE * m))
}

/// The position after moving from `p` at velocity `v` for `dt`, in thousandths.
pub open spec fn drift(p: int, v: int, dt: int) -> int {
    saturate(p + quot(dt * v, SCALE as int))
}

/// Half of any `i64`, rounded toward zero, is half as far from zero.
proof fn lemma_half_fits(a: int)
    requires
        i64::MIN <= a <= i64::MAX,
    ensures
        i64::MIN / 2 <= quot(a, 2) <= i64::MAX / 2,
{
    assert(magnitude(a) <= 0x8000_0000_0000_0000);
    assert(magnitude(a) / 2 <= 0x4000_0000_0000_0000);
}

/// `a / b` rounded toward zero.
fn quotient(a: i128, b: i128) -> (q: i128)
    requires
        b != 0,
        a != i128::MIN,
        b != i128::MIN,
    ensures
        q == quot(a as int, b as int),
        magnitude(q as int) <= magnitude(a as int),
{
    let ua: u128 = if a < 0 { (-a) as u128 } else { a as u128 };
    let ub: u128 = if b < 0 { (-b) as u128 } else { b as u128 };
    proof {
        lemma_div_basics_5(ua as int, ub as int);
    }
    let q = (ua / ub) as i128;
    if (a < 0) == (b < 0) { q } else { -q }
}

/// The spring's impulse over a step stays far inside the range of `i128`.
proof fn lemma_force_fits(dt: int, k: int, d: int)
    requires
        0 <= dt <= 0xffff,
        -0x8000_0000 <= k <= 0x8000_0000,
        -0x1_0000_0000_0000_0000 <= d <= 0x1_0000_0000_0000_0000,
    ensures
        -0x8000_0000_0000 <= dt * k <= 0x8000_0000_0000,
        -0x1_0000_0000_0000_0000_0000_0000_0000 <= dt * k * d <= 0x1_0000_0000_0000_0000_0000_0000_0000,
{
    let dk = dt * k;
    assert(-0x8000_0000_0000 <= dk <= 0x8000_0000_0000) by (nonlinear_arith)
        requires
            0 <= dt <= 0xffff,
            -0x8000_0000 <= k <= 0x8000_0000,
            dk == dt * k,
    ;
    assert(-0x1_0000_0000_0000_0000_0000_0000_0000 <= dk * d <= 0x1_0000_0000_0000_0000_0000_0000_0000)
        by (nonlinear_arith)
        requires
            -0x8000_0000_0000 <= dk <= 0x8000_0000_0000,
            -0x1_0000_0000_0000_0000 <= d <= 0x1_0000_0000_0000_0000,
    ;
}

/// The distance covered over a step stays far inside the range of `i128`.
proof fn lemma_travel_fits(dt: int, v: int)
    requires
        0 <= dt <= 0xffff,
        i64::MIN <= v <= i64::MAX,
    ensures
        -0x1_0000_0000_0000_0000_0000 <= dt * v <= 0x1_0000_0000_0000_0000_0000,
{
    assert(-0x1_0000_0000_0000_0000_0000 <= dt * v <= 0x1_0000_0000_0000_0000_0000) by (nonlinear_arith)
        requires
            0 <= dt <= 0xffff,
            -0x8000_0000_0000_0000 <= v <= 0x8000_0000_0000_0000,
    ;
}

/// `x`, held to the range of `i64`.
fn saturate_i64(x: i128) -> (r: i64)
    ensures
        r == saturate(x as int),
{
    if x > i64::MAX as i128 {
        i64::MAX
    } else if x < i64::MIN as i128 {
        i64::MIN
    } else {
        x as i64
    }
}

/// The velocity on one axis after a spring step of `dt`, from velocity `v` at
/// displacement `d`.
fn spring_step(v: i64, d: i128, k: i32, m: i64, dt: u16) -> (r: i64)
    requires
        m != 0,
        -0x1_0000_0000_0000_0000 <= d <= 0x1_0000_0000_0000_0000,
    ensures
        r == spring_velocity(v as int, d as int, k as int, m as int, dt as int),
{
    proof {
        lemma_force_fits(dt as int, k as int, d as int);
        assert(-0x1_0000_0000_0000_0000_0000 <= SCALE * m <= 0x1_0000_0000_0000_0000_0000);
    }
    let force: i128 = -(dt as i128 * k as i128 * d);
    let change = quotient(force, SCALE as i128 * m as i128);
    saturate_i64(v as i128 + change)
}

/// The position on one axis after moving from `p` at velocity `v` for `dt`.
fn drift_step(p: i64, v: i64, dt: u16) -> (r: i64)
    ensures
        r == drift(p as int, v as int, dt as int),
{
    proof {
        lemma_travel_fits(dt as int, v as int);
    }
    let travel = quotient(dt as i128 * v as i128, SCALE as i128);
    saturate_i64(p as i128 + travel)
}

/// A pair of fixed-point coordinates, in thousandths.
#[derive(Clone, Copy, Debug, PartialEq, Eq, Structural)]
pub struct Vector2 {
    pub x: i64,
    pub y: i64,
}

/// A rectangle on a spring that pulls it toward its rest position.
#[derive(Clone, Copy, Debug, PartialEq, Eq, Structural)]
pub struct Body {
    /// The top-left corner, moved by every update.
    pub position: Vector2,
    /// The equilibrium point, fixed when the body is made.
    pub rest_position: Vector2,
    /// Width and height.
    pub size: Vector2,
    /// Changed by the mass keys, and clamped to `MIN_MASS` after each update.
    pub mass: i64,
    /// The spring's stiffness, held in 32 bits so that the spring's impulse on any
    /// displacement fits the 128-bit arithmetic of a step.
    pub k: i32,
    /// Zero when the body is made, then changed by every update.
    pub velocity: Vector2,
}

/// The rest position for a screen of the given size: 50.0 up and to the left of its centre.
pub open spec fn rest_for(screen: Vector2) -> Vector2 {
    Vector2 {
        x: (quot(screen.x as int, 2) - REST_OFFSET) as i64,
        y: (quot(screen.y as int, 2) - REST_OFFSET) as i64,
    }
}

/// The mass after the floor clamp: anything at or under `MIN_MASS` becomes `MIN_MASS`.
pub open spec fn clamped_mass(m: int) -> int {
    if m <= MIN_MASS { MIN_MASS as int } else { m }
}

/// The mass after this frame's key presses: "increase" adds one `MASS_STEP`, else
/// "decrease" takes one away, held to the range of `i64`.
pub open spec fn keyed_mass(m: int, increase: bool, decrease: bool) -> int {
    if increase {
        saturate(m + MASS_STEP)
    } else if decrease {
        saturate(m - MASS_STEP)
    } else {
        m
    }
}

impl Body {
    /// Makes a body at rest in velocity, with its rest position taken from the size of
    /// the screen.
    pub fn new(position: Vector2, size: Vector2, mass: i64, k: i32, screen: Vector2) -> (b: Body)
        ensures
            b.position == position,
            b.rest_position == rest_for(screen),
            b.size == size,
            b.mass == mass,
            b.k == k,
            b.velocity == (Vector2 { x: 0, y: 0 }),
    {
        proof {
            lemma_half_fits(screen.x as int);
            lemma_half_fits(screen.y as int);
        }
        let rx = quotient(screen.x as i128, 2) as i64 - REST_OFFSET;
        let ry = quotient(screen.y as i128, 2) as i64 - REST_OFFSET;
        Body {
            position,
            rest_position: Vector2 { x: rx, y: ry },
            size,
            mass,
            k,
            velocity: Vector2 { x: 0, y: 0 },
        }
    }

    /// The body with its mass clamped to the floor.
    pub open spec fn mass_clamped(self) -> Body {
        Body { mass: clamped_mass(self.mass as int) as i64, ..self }
    }

    /// The body with this frame's key presses applied to its mass.
    pub open spec fn keys_applied(self, increase: bool, decrease: bool) -> Body {
        Body { mass: keyed_mass(self.mass as int, increase, decrease) as i64, ..self }
    }

    /// The body after one whole frame: an update, the mass clamp, then the keys.
    pub open spec fn after_frame(self, increase: bool, decrease: bool) -> Body {
        self.stepped(TIMESTEP as int).mass_clamped().keys_applied(increase, decrease)
    }

    /// The body after one spring step of `dt`: nothing moves while the body sits exactly
    /// at rest; otherwise the velocity takes the spring's pull first, and the position
    /// then moves by the new velocity.
    pub open spec fn stepped(self, dt: int) -> Body {
        if self.position == self.rest_position {
            self
        } else {
            let vx = spring_velocity(
                self.velocity.x as int,
                self.position.x - self.rest_position.x,
                self.k as int,
                self.mass as int,
                dt,
            );
            let vy = spring_velocity(
                self.velocity.y as int,
                self.position.y - self.rest_position.y,
                self.k as int,
                self.mass as int,
                dt,
            );
            Body {
                position: Vector2 {
                    x: drift(self.position.x as int, vx, dt) as i64,
                    y: drift(self.position.y as int, vy, dt) as i64,
                },
                velocity: Vector2 { x: vx as i64, y: vy as i64 },
                ..self
            }
        }
    }

    /// Advances the body by one spring step of `dt` thousandths of a time unit.
    pub fn advance(&mut self, dt: u16)
        requires
            old(self).mass != 0,
        ensures
            *final(self) == old(self).stepped(dt as int),
    {
        // Exactly at rest the spring has no direction to pull in, and nothing moves,
        // not even under a velocity left over from earlier steps.
        if self.position == self.rest_position {
            return ;
        }
        let dx = self.position.x as i128 - self.rest_position.x as i128;
        let dy = self.position.y as i128 - self.rest_position.y as i128;
        let vx = spring_step(self.velocity.x, dx, self.k, self.mass, dt);
        let vy = spring_step(self.velocity.y, dy, self.k, self.mass, dt);
        let px = drift_step(self.position.x, vx, dt);
        let py = drift_step(self.position.y, vy, dt);
        self.velocity = Vector2 { x: vx, y: vy };
        self.position = Vector2 { x: px, y: py };
    }

    /// Advances the body by one frame's fixed timestep. A body sitting exactly at its
    /// rest position keeps its position and velocity.
    pub fn update(&mut self)
        requires
            old(self).mass != 0,
        ensures
            *final(self) == old(self).stepped(TIMESTEP as int),
            old(self).position == old(self).rest_position ==> *final(self) == *old(self),
    {
        self.advance(TIMESTEP);
    }

    /// Raises the mass to `MIN_MASS` if it is at or under it.
    pub fn clamp_mass(&mut self)
        ensures
            *final(self) == old(self).mass_clamped(),
            final(self).mass >= MIN_MASS,
    {
        if self.mass <= MIN_MASS {
            self.mass = MIN_MASS;
        }
    }

    /// Applies one frame's key presses to the mass: one `MASS_STEP` up if "increase" was
    /// pressed, else one down if "decrease" was pressed.
    pub fn apply_keys(&mut self, increase: bool, decrease: bool)
        ensures
            *final(self) == old(self).keys_applied(increase, decrease),
            increase && old(self).mass <= i64::MAX - MASS_STEP ==> final(self).mass
                == old(self).mass + MASS_STEP,
            !increase && decrease && old(self).mass >= i64::MIN + MASS_STEP ==> final(self).mass
                == old(self).mass - MASS_STEP,
            !increase && !decrease ==> *final(self) == *old(self),
    {
        if increase {
            self.mass = saturate_i64(self.mass as i128 + MASS_STEP as i128);
        } else if decrease {
            self.mass = saturate_i64(self.mass as i128 - MASS_STEP as i128);
        }
    }

    /// Runs one frame: the update, the mass clamp, then the key presses. The mass left
    /// is never zero, so frames can follow one another without end.
    pub fn frame(&mut self, increase: bool, decrease: bool)
        requires
            old(self).mass != 0,
        ensures
            *final(self) == old(self).after_frame(increase, decrease),
            final(self).mass >= MIN_MASS - MASS_STEP,
    {
        self.update();
        self.clamp_mass();
        self.apply_keys(increase, decrease);
    }
}

} // verus!
