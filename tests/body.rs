use oscillation::body::{Body, Vector2, MASS_STEP, MIN_MASS, TIMESTEP};

fn v(x: i64, y: i64) -> Vector2 {
    Vector2 { x, y }
}

/// An 800 x 600 screen, in thousandths of a pixel.
fn screen() -> Vector2 {
    v(800_000, 600_000)
}

/// The body that the program makes: 70.0 below its rest position.
fn standard_body() -> Body {
    Body::new(v(350_000, 320_000), v(100_000, 50_000), 40_000, 150_000, screen())
}

#[test]
fn new_keeps_the_given_fields() {
    let b = Body::new(v(12_345, -6_789), v(100_000, 50_000), 40_000, 150_000, screen());
    assert_eq!(b.position, v(12_345, -6_789));
    assert_eq!(b.size, v(100_000, 50_000));
    assert_eq!(b.mass, 40_000);
    assert_eq!(b.k, 150_000);
    assert_eq!(b.velocity, v(0, 0));
}

#[test]
fn rest_position_is_left_and_above_the_screen_centre() {
    let b = standard_body();
    assert_eq!(b.rest_position, v(350_000, 250_000));
}

#[test]
fn rest_position_of_an_odd_screen_rounds_toward_zero() {
    let b = Body::new(v(0, 0), v(1, 1), 40_000, 150_000, v(-3, 101));
    assert_eq!(b.rest_position, v(-1 - 50_000, 50 - 50_000));
}

#[test]
fn update_at_rest_changes_nothing() {
    let mut b = standard_body();
    b.position = b.rest_position;
    b.velocity = v(1_234, -5_678);
    let before = b;
    b.update();
    assert_eq!(b, before);
}

#[test]
fn displaced_body_is_pulled_toward_rest() {
    let rest = standard_body().rest_position;
    let mut b = Body::new(v(rest.x + 50_000, rest.y), v(100_000, 50_000), 40_000, 150_000, screen());
    b.update();
    // 0.016 * (-150 * 50) / 40 = -3.0, then 0.016 * -3.0 = -0.048.
    assert_eq!(b.velocity, v(-3_000, 0));
    assert_eq!(b.position, v(rest.x + 49_952, rest.y));
    assert!(b.position.x - rest.x < 50_000);
}

#[test]
fn pull_below_rest_points_up() {
    let mut b = standard_body();
    b.update();
    // displacement 70.0 down: 0.016 * (-150 * 70) / 40 = -4.2, then -0.0672.
    assert_eq!(b.velocity, v(0, -4_200));
    assert_eq!(b.position, v(350_000, 320_000 - 67));
}

#[test]
fn velocity_change_rounds_toward_zero() {
    let mut b = Body::new(v(350_000 + 50_000, 250_000), v(1, 1), 7_000, 150_000, screen());
    b.update();
    // 16 * 150000 * 50000 / (1000 * 7000) = 17142.857...
    assert_eq!(b.velocity.x, -17_142);
    // 16 * -17142 / 1000 = -274.272...
    assert_eq!(b.position.x, 400_000 - 274);
}

#[test]
fn longer_timestep_gives_a_larger_change() {
    let rest = standard_body().rest_position;
    let mut b = Body::new(v(rest.x + 50_000, rest.y), v(1, 1), 40_000, 150_000, screen());
    b.advance(2 * TIMESTEP);
    assert_eq!(b.velocity.x, -6_000);
    assert_eq!(b.position.x, rest.x + 50_000 - 192);
}

#[test]
fn oscillation_crosses_rest_and_comes_back() {
    let rest = standard_body().rest_position;
    let mut b = Body::new(v(rest.x + 50_000, rest.y), v(1, 1), 40_000, 150_000, screen());
    let mut crossed = false;
    let mut i: u32 = 0;
    while i < 200 {
        b.frame(false, false);
        if b.position.x < rest.x {
            crossed = true;
        }
        i += 1;
    }
    assert!(crossed);
    assert!(b.position.x > rest.x - 60_000 && b.position.x < rest.x + 60_000);
}

#[test]
fn increase_adds_one_step() {
    let mut b = standard_body();
    b.apply_keys(true, false);
    assert_eq!(b.mass, 40_000 + MASS_STEP);
    assert_eq!(b.mass, 45_000);
}

#[test]
fn increase_wins_over_decrease() {
    let mut b = standard_body();
    b.apply_keys(true, true);
    assert_eq!(b.mass, 45_000);
}

#[test]
fn decrease_takes_one_step() {
    let mut b = standard_body();
    b.apply_keys(false, true);
    assert_eq!(b.mass, 35_000);
}

#[test]
fn no_key_leaves_the_mass() {
    let mut b = standard_body();
    b.apply_keys(false, false);
    assert_eq!(b.mass, 40_000);
}

#[test]
fn increase_saturates_at_the_largest_mass() {
    let mut b = standard_body();
    b.mass = i64::MAX - 1;
    b.apply_keys(true, false);
    assert_eq!(b.mass, i64::MAX);
}

#[test]
fn clamp_raises_a_small_mass_to_the_floor() {
    let mut b = standard_body();
    b.mass = 1_000;
    b.clamp_mass();
    assert_eq!(b.mass, MIN_MASS);
    b.mass = 6_001;
    b.clamp_mass();
    assert_eq!(b.mass, 6_001);
}

#[test]
fn decrease_at_the_floor_is_undone_by_the_next_clamp() {
    let mut b = standard_body();
    b.mass = MIN_MASS;
    b.frame(false, true);
    assert_eq!(b.mass, MIN_MASS - MASS_STEP);
    b.update();
    b.clamp_mass();
    assert_eq!(b.mass, 6_000);
}

#[test]
fn mass_is_at_least_the_floor_after_every_update() {
    let mut b = standard_body();
    let mut i: u32 = 0;
    while i < 30 {
        b.update();
        b.clamp_mass();
        assert!(b.mass >= 6_000);
        b.apply_keys(false, true);
        i += 1;
    }
    assert_eq!(b.mass, 1_000);
}

#[test]
fn frame_runs_update_clamp_then_keys() {
    let mut a = standard_body();
    a.mass = 2_000;
    let mut b = a;
    a.frame(true, false);
    b.update();
    b.clamp_mass();
    b.apply_keys(true, false);
    assert_eq!(a, b);
    assert_eq!(a.mass, 11_000);
}

#[test]
fn untouched_body_keeps_its_constructor_values() {
    let b = standard_body();
    let c = b;
    assert_eq!(c.position, v(350_000, 320_000));
    assert_eq!(c.size, v(100_000, 50_000));
    assert_eq!(c.mass, 40_000);
    assert_eq!(c.k, 150_000);
    assert_eq!(c.velocity, v(0, 0));
    assert_eq!(c.rest_position, v(350_000, 250_000));
}
