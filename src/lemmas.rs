//! Properties that hold across the body's operations.

use crate::body::{magnitude, quot, spring_velocity, Body, MASS_STEP, MIN_MASS, SCALE};
use vstd::arithmetic::div_mod::lemma_div_basics_4;
use vstd::prelude::*;

verus! {

/// On one axis, with a stiffness and a mass that are positive or zero, the spring step
/// changes the velocity against the displacement, or not at all.
proof fn lemma_axis_pull(v: int, d: int, k: int, m: int, dt: int)
    requires
        i64::MIN <= v <= i64::MAX,
        k >= 0,
        m > 0,
        dt >= 0,
    ensures
        (spring_velocity(v, d, k, m, dt) - v) * d <= 0,
{
    let f = dt * k * d;
    assert(d >= 0 ==> f >= 0) by (nonlinear_arith)
        requires
            dt >= 0,
            k >= 0,
            f == dt * k * d,
    ;
    assert(d <= 0 ==> f <= 0) by (nonlinear_arith)
        requires
            dt >= 0,
            k >= 0,
            f == dt * k * d,
    ;
    let den = SCALE * m;
    lemma_div_basics_4(magnitude(-f), magnitude(den));
    let q = quot(-f, den);
    assert(d >= 0 ==> q <= 0);
    assert(d <= 0 ==> q >= 0);
    let w = spring_velocity(v, d, k, m, dt) - v;
    assert(d >= 0 ==> w <= 0);
    assert(d <= 0 ==> w >= 0);
    assert(w * d <= 0) by (nonlinear_arith)
        requires
            d >= 0 ==> w <= 0,
            d <= 0 ==> w >= 0,
    ;
}

/// The spring pulls toward rest: with a stiffness and a mass that are positive or zero,
/// one step changes each component of the velocity against the displacement from the
/// rest position on that axis (the product of the two is never positive).
pub proof fn lemma_pull_toward_rest(b: Body, dt: int)
    requires
        b.k >= 0,
        b.mass > 0,
        dt >= 0,
    ensures
        (b.stepped(dt).velocity.x - b.velocity.x) * (b.position.x - b.rest_position.x) <= 0,
        (b.stepped(dt).velocity.y - b.velocity.y) * (b.position.y - b.rest_position.y) <= 0,
{
    if b.position != b.rest_position {
        lemma_axis_pull(
            b.velocity.x as int,
            b.position.x - b.rest_position.x,
            b.k as int,
            b.mass as int,
            dt,
        );
        lemma_axis_pull(
            b.velocity.y as int,
            b.position.y - b.rest_position.y,
            b.k as int,
            b.mass as int,
            dt,
        );
    }
}

/// Whatever the body's state, the mass is at least `MIN_MASS` once an update has been
/// followed by the floor clamp.
pub proof fn lemma_mass_floor_after_update(b: Body, dt: int)
    ensures
        b.stepped(dt).mass_clamped().mass >= MIN_MASS,
{
}

/// One press of "increase" adds exactly one `MASS_STEP` to the mass, whether or not
/// "decrease" was pressed in the same frame, where the sum fits.
pub proof fn lemma_increase_adds_one_step(b: Body, decrease: bool)
    requires
        b.mass + MASS_STEP <= i64::MAX,
    ensures
        b.keys_applied(true, decrease).mass == b.mass + MASS_STEP,
{
}

/// A press of "decrease" at the floor is undone by the clamp that follows the next
/// update: the mass is back at `MIN_MASS`.
pub proof fn lemma_clamp_absorbs_decrease(b: Body, dt: int)
    requires
        b.mass == MIN_MASS,
    ensures
        b.keys_applied(false, true).stepped(dt).mass_clamped().mass == MIN_MASS,
{
}

} // verus!
