use interplanetary::body::{Body, Color};
use interplanetary::fx::{fx_add, fx_div, fx_mul, fx_neg, fx_sin, fx_cos, fx_sqrt, fx_sub, Fx};
use interplanetary::screen::world_to_screen;
use interplanetary::store::{seed_asteroid, SimError, Store};

const S: i64 = 16777216;

fn fi(v: i32) -> Fx {
    Fx::from_int(v)
}

fn raw(v: i64) -> Fx {
    Fx::from_raw(v)
}

fn gray() -> Color {
    Color { red: 160, green: 160, blue: 160 }
}

fn body_at(px: Fx, py: Fx, mass: Fx) -> Body {
    Body::new(px, py, mass, gray())
}

#[test]
fn scalar_ops_exact() {
    assert_eq!(fx_add(fi(3), fi(4)).raw, 7 * S);
    assert_eq!(fx_sub(fi(3), fi(4)).raw, -S);
    assert_eq!(fx_neg(fi(3)).raw, -3 * S);
    assert_eq!(fx_mul(fi(3), fi(4)).raw, 12 * S);
    assert_eq!(fx_mul(fi(-3), fi(4)).raw, -12 * S);
    assert_eq!(fx_div(fi(1), fi(3)).raw, 5592405);
    assert_eq!(fx_sqrt(fi(2)).raw, 23726566);
    assert_eq!(fx_sqrt(fi(9)).raw, 3 * S);
}

#[test]
fn scalar_ops_edges() {
    // division by zero and the square root of a negative value are defined
    // as zero; addition saturates instead of overflowing
    assert_eq!(fx_div(fi(5), raw(0)).raw, 0);
    assert_eq!(fx_sqrt(fi(-2)).raw, 0);
    assert_eq!(fx_add(raw(i64::MAX), fi(1)).raw, i64::MAX);
    assert_eq!(fx_add(raw(-i64::MAX), fi(-1)).raw, -i64::MAX);
}

#[test]
fn sine_quarter_points() {
    let half_pi = raw(26353589);
    let pi = raw(52707179);
    assert_eq!(fx_sin(raw(0)).raw, 0);
    assert_eq!(fx_sin(half_pi).raw, 16777215);
    assert_eq!(fx_sin(pi).raw, 0);
    assert_eq!(fx_sin(fx_add(pi, half_pi)).raw, -16777215);
    assert_eq!(fx_cos(raw(0)).raw, 16777215);
    assert_eq!(fx_cos(pi).raw, -16777215);
}

#[test]
fn new_body_is_at_rest_with_derived_radius() {
    // radius = sqrt(mass / pi) / 2; for mass = 4 * pi the radius is exactly 1
    let b = Body::new(fi(7), fi(8), raw(4 * 52707179), gray());
    assert_eq!(b.vel_x.raw, 0);
    assert_eq!(b.vel_y.raw, 0);
    assert_eq!(b.radius.raw, S);
    assert_eq!(b.mass.raw, 4 * 52707179);
    let c = Body::new(fi(0), fi(0), fi(100), gray());
    assert_eq!(c.radius.raw, 47327652);
}

#[test]
fn add_body_appends_one_at_rest() {
    let mut s = Store { bodies: Vec::new() };
    let r = s.add_body(fi(10), fi(20), fi(100), gray());
    assert_eq!(r, Ok(()));
    assert_eq!(s.bodies.len(), 1);
    assert_eq!(s.bodies[0].pos_x.raw, 10 * S);
    assert_eq!(s.bodies[0].pos_y.raw, 20 * S);
    assert_eq!(s.bodies[0].vel_x.raw, 0);
    assert_eq!(s.bodies[0].vel_y.raw, 0);
    assert_eq!(s.bodies[0].radius.raw, 47327652);
}

#[test]
fn add_body_rejects_nonpositive_mass() {
    let mut s = Store { bodies: Vec::new() };
    assert_eq!(s.add_body(fi(0), fi(0), fi(0), gray()), Err(SimError::InvalidBody));
    assert_eq!(s.add_body(fi(0), fi(0), fi(-3), gray()), Err(SimError::InvalidBody));
    assert_eq!(s.bodies.len(), 0);
}

#[test]
fn gate_inert_at_equality_and_below() {
    // a pair resting at the exact threshold separation: no pull either way
    let m = fi(100);
    let rsum: i64 = 2 * 47327652;
    let mut s = Store { bodies: vec![body_at(raw(0), raw(0), m), body_at(raw(rsum), raw(0), m)] };
    s.step(fi(1));
    for b in &s.bodies {
        assert_eq!(b.vel_x.raw, 0);
        assert_eq!(b.vel_y.raw, 0);
    }
    // well inside the radius sum: still inert
    let mut t = Store { bodies: vec![body_at(fi(0), fi(0), m), body_at(fi(1), fi(0), m)] };
    t.step(fi(1));
    for b in &t.bodies {
        assert_eq!(b.vel_x.raw, 0);
        assert_eq!(b.vel_y.raw, 0);
    }
}

#[test]
fn gate_opens_just_above_equality() {
    // one raw unit beyond the radius sum and gravity acts again
    let m = fi(100);
    let rsum: i64 = 2 * 47327652;
    let mut s = Store {
        bodies: vec![body_at(raw(0), raw(0), m), body_at(raw(rsum + 1), raw(0), m)],
    };
    s.step(fi(1));
    assert_eq!(s.bodies[0].vel_x.raw, 3518);
    assert_eq!(s.bodies[1].vel_x.raw, -3518);
}

#[test]
fn overlapping_heavy_pair_is_inert() {
    // masses 10000 and 100 have radii near 28.2 and 2.8, so at separation
    // 30 the pair overlaps and gravity is suppressed for the step
    let mut s = Store {
        bodies: vec![body_at(fi(0), fi(0), fi(10000)), body_at(fi(30), fi(0), fi(100))],
    };
    s.bodies[1].vel_y = fi(80);
    s.step(fi(1));
    assert_eq!(s.bodies[0].vel_x.raw, 0);
    assert_eq!(s.bodies[0].vel_y.raw, 0);
    assert_eq!(s.bodies[1].vel_x.raw, 0);
    assert_eq!(s.bodies[1].vel_y.raw, 80 * S);
    // the light body drifted by its own velocity alone
    assert_eq!(s.bodies[1].pos_y.raw, 80 * S);
    // at separation 100 the same masses sit well apart (radii 28.2 + 2.8),
    // so gravity acts there
    let mut far = Store {
        bodies: vec![body_at(fi(0), fi(0), fi(10000)), body_at(fi(100), fi(0), fi(100))],
    };
    far.bodies[1].vel_y = fi(80);
    far.step(fi(1));
    assert_ne!(far.bodies[1].vel_x.raw, 0);
}

#[test]
fn force_magnitude_formula_and_symmetry() {
    // equal masses 1000 at separation 100: force = G * m * m / dist_sq,
    // equal and opposite on the two bodies
    let m = fi(1000);
    let mut s = Store { bodies: vec![body_at(fi(0), fi(0), m), body_at(fi(100), fi(0), m)] };
    s.step(raw(0));
    // G * 1000 * 1000 / 10000 = 1120 * 1000000 / 10000 at scale 2^24, then
    // divided by the mass: 112000 / 1000
    assert_eq!(s.bodies[0].vel_x.raw, 112);
    assert_eq!(s.bodies[1].vel_x.raw, -112);
    assert_eq!(s.bodies[0].vel_y.raw, 0);
    assert_eq!(s.bodies[1].vel_y.raw, 0);
}

#[test]
fn kick_range_boundary() {
    // a light body beside a tenfold-heavier one: the tangential kick of
    // 0.05 lands only strictly inside the 150-unit range
    let kick: i64 = 838861;
    let just_in: i64 = 150 * S - 1;
    let mut s = Store {
        bodies: vec![body_at(raw(0), raw(0), fi(1)), body_at(raw(just_in), raw(0), fi(10))],
    };
    s.step(raw(0));
    assert_eq!(s.bodies[0].vel_y.raw, kick);
    let mut t = Store {
        bodies: vec![body_at(raw(0), raw(0), fi(1)), body_at(raw(150 * S), raw(0), fi(10))],
    };
    t.step(raw(0));
    assert_eq!(t.bodies[0].vel_y.raw, 0);
}

#[test]
fn kick_mass_ratio_boundary() {
    // the kick needs the neighbour to outweigh the body strictly more than
    // fivefold: exactly five times is not enough
    let kick: i64 = 838861;
    let mut s = Store {
        bodies: vec![body_at(fi(0), fi(0), fi(1)), body_at(fi(100), fi(0), raw(5 * S))],
    };
    s.step(raw(0));
    assert_eq!(s.bodies[0].vel_y.raw, 0);
    let mut t = Store {
        bodies: vec![body_at(fi(0), fi(0), fi(1)), body_at(fi(100), fi(0), raw(5 * S + 1))],
    };
    t.step(raw(0));
    assert_eq!(t.bodies[0].vel_y.raw, kick);
}

#[test]
fn positions_integrate_post_pass_velocities() {
    // a fast heavy body and two light followers: advancing any position
    // before the pairwise pass finishes would land bodies 1 and 2
    // elsewhere, so these exact results certify the snapshot ordering
    let mut s = Store {
        bodies: vec![
            body_at(fi(0), fi(0), fi(10000)),
            body_at(fi(100), fi(0), fi(100)),
            body_at(fi(200), fi(0), fi(100)),
        ],
    };
    s.bodies[0].vel_x = fi(50);
    s.step(fi(1));
    assert_eq!(s.bodies[0].pos_x.raw, 838860813);
    assert_eq!(s.bodies[0].pos_y.raw, 0);
    assert_eq!(s.bodies[0].vel_x.raw, 838860813);
    assert_eq!(s.bodies[1].pos_x.raw, 1677720491);
    assert_eq!(s.bodies[1].pos_y.raw, -838861);
    assert_eq!(s.bodies[1].vel_x.raw, -1109);
    assert_eq!(s.bodies[1].vel_y.raw, -838861);
    assert_eq!(s.bodies[2].pos_x.raw, 3355442909);
    assert_eq!(s.bodies[2].pos_y.raw, 0);
    assert_eq!(s.bodies[2].vel_x.raw, -291);
    assert_eq!(s.bodies[2].vel_y.raw, 0);
    // a naive interleaved pass would move body 1 to 1677717131 and give
    // body 2 a kick; neither happened
    assert_ne!(s.bodies[1].pos_x.raw, 1677717131);
    assert_ne!(s.bodies[2].vel_y.raw, -838861);
}

#[test]
fn body_update_moves_by_velocity_times_dt() {
    let mut b = body_at(fi(1), fi(2), fi(100));
    b.vel_x = fi(3);
    b.vel_y = fi(4);
    b.update(raw(S / 2));
    assert_eq!(b.pos_x.raw, S + 3 * S / 2);
    assert_eq!(b.pos_y.raw, 2 * S + 2 * S);
    assert_eq!(b.vel_x.raw, 3 * S);
    assert_eq!(b.vel_y.raw, 4 * S);
}

#[test]
fn zero_dt_freezes_positions() {
    let mut s = Store {
        bodies: vec![body_at(fi(0), fi(0), fi(1000)), body_at(fi(100), fi(0), fi(1000))],
    };
    s.step(raw(0));
    assert_eq!(s.bodies[0].pos_x.raw, 0);
    assert_eq!(s.bodies[1].pos_x.raw, 100 * S);
    // velocities still changed: the force scale is independent of dt
    assert_ne!(s.bodies[0].vel_x.raw, 0);
}

#[test]
fn seeding_is_exact_in_the_draws() {
    // the random source is injected as plain values: fixed draws give a
    // fixed body. A quarter-turn angle puts the asteroid straight below
    // the center; mid-range draws give distance 250 and mass 3; the
    // tangential velocity of speed 15 then points along x.
    let b = seed_asteroid(raw(S / 4), raw(S / 2), raw(S / 2), raw(S / 4));
    assert_eq!(b.pos_x.raw, 400 * S);
    assert_eq!(b.pos_y.raw, 9227468550);
    assert_eq!(b.vel_x.raw, 15 * S);
    assert_eq!(b.vel_y.raw, 0);
    assert_eq!(b.mass.raw, 3 * S);
    assert_eq!(b.radius.raw, 8197389);
    assert_eq!(b.color, gray());
    // all-zero draws: least distance and mass, speed 10 pointing down
    let z = seed_asteroid(raw(0), raw(0), raw(0), raw(0));
    assert_eq!(z.pos_x.raw, 9227468650);
    assert_eq!(z.pos_y.raw, 300 * S);
    assert_eq!(z.vel_x.raw, 0);
    assert_eq!(z.vel_y.raw, -10 * S);
    assert_eq!(z.mass.raw, S);
    assert_eq!(z.radius.raw, 4732764);
}

#[test]
fn seeded_population_shape() {
    let s = Store::create_default();
    assert_eq!(s.bodies.len(), 200);
    for b in &s.bodies {
        assert_eq!(b.color, gray());
        assert!(b.mass.raw >= S && b.mass.raw < 5 * S);
        assert!(b.radius.raw > 0);
    }
}

#[test]
fn add_random_body_appends_planet() {
    let mut s = Store::create_default();
    s.add_random_body();
    assert_eq!(s.bodies.len(), 201);
    let p = &s.bodies[200];
    assert_eq!(p.vel_x.raw, 0);
    assert_eq!(p.vel_y.raw, 0);
    assert!(p.mass.raw >= 1500 * S && p.mass.raw < 2200 * S);
    assert!(p.pos_x.raw >= 0 && p.pos_x.raw < 800 * S);
    assert!(p.pos_y.raw >= 0 && p.pos_y.raw < 600 * S);
}

#[test]
fn reset_restores_seed_population_size() {
    let mut s = Store::create_default();
    s.add_random_body();
    s.add_random_body();
    s.add_random_body();
    assert_eq!(s.bodies.len(), 203);
    s.reset();
    assert_eq!(s.bodies.len(), Store::create_default().bodies.len());
    assert_eq!(s.bodies.len(), 200);
}

#[test]
fn screen_projection_exact() {
    let (sx, sy) = world_to_screen(fi(100), fi(50), fi(400), fi(300), fi(1), raw(0), raw(0));
    assert_eq!(sx.raw, -300 * S);
    assert_eq!(sy.raw, -250 * S);
    let (hx, _) = world_to_screen(fi(100), fi(50), fi(400), fi(300), raw(S / 2), fi(10), raw(0));
    assert_eq!(hx.raw, -140 * S);
}
