//! The body store and the physics stepper.
//!
//! The store owns every simulated body, in insertion order, and only ever
//! grows: seeding fills it with an asteroid ring, spawn requests append one
//! planet each, and a reset replaces the contents with a fresh ring. One
//! step runs every ordered pair of distinct bodies through the pairwise
//! interaction, reading a consistent snapshot of the pre-step positions,
//! masses and radii, and then advances every position by the velocity as it
//! stands after the entire pass.

use vstd::prelude::*;
use crate::body::{Body, Color, lemma_radius_positive, radius_raw, spec_apply_gravity};
use crate::fx::{Fx, fx_add, fx_sub, fx_neg, fx_mul, fx_div, fx_sqrt, fx_sin, fx_cos, fx_add_raw,
    fx_sub_raw, fx_neg_raw, fx_mul_raw, fx_sqrt_raw, fx_div_raw, fx_sin_raw, fx_cos_raw,
    FX_ONE_RAW, FX_TAU_RAW};

verus! {

/// Number of asteroids in the seeded ring.
pub const ASTEROID_COUNT: usize = 200;

/// Raw x coordinate of the ring's center: 400 at scale `2^24`.
pub const CENTER_X_RAW: i64 = 6710886400;

/// Raw y coordinate of the ring's center: 300 at scale `2^24`.
pub const CENTER_Y_RAW: i64 = 5033164800;

/// Raw least ring distance from the center: 150 at scale `2^24`.
pub const RING_MIN_RAW: i64 = 2516582400;

/// Raw width of the ring distance range: 200 at scale `2^24`.
pub const RING_SPAN_RAW: i64 = 3355443200;

/// Raw least asteroid mass: 1 at scale `2^24`.
pub const AST_MASS_MIN_RAW: i64 = 16777216;

/// Raw width of the asteroid mass range: 4 at scale `2^24`.
pub const AST_MASS_SPAN_RAW: i64 = 67108864;

/// Raw least asteroid speed: 10 at scale `2^24`.
pub const AST_SPEED_MIN_RAW: i64 = 167772160;

/// Raw width of the asteroid speed range: 20 at scale `2^24`.
pub const AST_SPEED_SPAN_RAW: i64 = 335544320;

/// Raw least spawned planet mass: 1500 at scale `2^24`.
pub const PLANET_MASS_MIN_RAW: i64 = 25165824000;

/// Raw width of the spawned planet mass range: 700 at scale `2^24`.
pub const PLANET_MASS_SPAN_RAW: i64 = 11744051200;

/// Raw width of the random spawn area: 800 at scale `2^24`.
pub const SPAWN_W_RAW: i64 = 13421772800;

/// Raw height of the random spawn area: 600 at scale `2^24`.
pub const SPAWN_H_RAW: i64 = 10066329600;

/// Relies on `rand::random`: draws a value of `T` from the thread-local
/// generator under the `StandardUniform` distribution. Nothing is assumed
/// of the value drawn.
pub assume_specification<T>[ rand::random::<T> ]() -> (r: T)
    where
        rand::distr::StandardUniform: rand::distr::Distribution<T>,
;

/// A uniformly distributed scalar in `[0, 1)`: the top 24 bits of a random
/// `u32`, placed in the fractional digits.
fn rand_unit() -> (r: Fx)
    ensures
        0 <= r.raw < FX_ONE_RAW,
{
    let w: u32 = rand::random();
    let t: u32 = w >> 8;
    assert(t < 0x100_0000) by (bit_vector)
        requires
            t == w >> 8,
    ;
    Fx { raw: t as i64 }
}

/// Scaling a unit scalar into a non-negative span keeps the product within
/// the span.
proof fn lemma_unit_scale(u: int, span: int)
    requires
        0 <= u < FX_ONE_RAW,
        0 < span <= 0x7fff_ffff_ffff_ffff,
    ensures
        0 <= fx_mul_raw(u, span) < span,
{
    assert(u * span / (FX_ONE_RAW as int) < span) by (nonlinear_arith)
        requires
            0 <= u < FX_ONE_RAW,
            0 < span,
    ;
    assert(u * span >= 0) by (nonlinear_arith)
        requires
            0 <= u,
            0 < span,
    ;
    assert(u * span / (FX_ONE_RAW as int) >= 0) by (nonlinear_arith)
        requires
            u * span >= 0,
    ;
}

/// Why a spawn request was rejected.
#[derive(Clone, Copy, PartialEq, Eq, Structural, Debug)]
pub enum SimError {
    /// The requested mass was not positive.
    InvalidBody,
}

/// The ordered, append-only collection of every simulated body.
pub struct Store {
    pub bodies: Vec<Body>,
}

/// The body appended for a spawn request: at rest, radius derived from the
/// mass.
pub open spec fn spec_new_body(pos_x: Fx, pos_y: Fx, mass: Fx, color: Color) -> Body {
    Body {
        pos_x,
        pos_y,
        vel_x: Fx { raw: 0 },
        vel_y: Fx { raw: 0 },
        mass,
        radius: Fx { raw: radius_raw(mass.raw as int) as i64 },
        color,
    }
}

/// A draw from the unit interval: raw in `[0, 2^24)`.
pub open spec fn unit_draw(u: Fx) -> bool {
    0 <= u.raw < FX_ONE_RAW
}

/// The ring asteroid built from one quadruple of unit draws: angle
/// `u0 * tau`, center distance `150 + u1 * 200`, mass `1 + u2 * 4`; it sits
/// at the center plus the distance along the angle, and moves tangentially
/// (perpendicular to its direction to the center) at speed `10 + u3 * 20`.
pub open spec fn spec_seed_asteroid(u0: Fx, u1: Fx, u2: Fx, u3: Fx) -> Body {
    let angle = fx_mul_raw(u0.raw as int, FX_TAU_RAW as int);
    let ring_d = fx_add_raw(RING_MIN_RAW as int, fx_mul_raw(u1.raw as int, RING_SPAN_RAW as int));
    let px = fx_add_raw(CENTER_X_RAW as int, fx_mul_raw(ring_d, fx_cos_raw(angle)));
    let py = fx_add_raw(CENTER_Y_RAW as int, fx_mul_raw(ring_d, fx_sin_raw(angle)));
    let mass = fx_add_raw(
        AST_MASS_MIN_RAW as int,
        fx_mul_raw(u2.raw as int, AST_MASS_SPAN_RAW as int),
    );
    let tcx = fx_sub_raw(CENTER_X_RAW as int, px);
    let tcy = fx_sub_raw(CENTER_Y_RAW as int, py);
    let pxn = fx_neg_raw(tcy);
    let pn = fx_sqrt_raw(fx_add_raw(fx_mul_raw(pxn, pxn), fx_mul_raw(tcx, tcx)));
    let speed = fx_add_raw(
        AST_SPEED_MIN_RAW as int,
        fx_mul_raw(u3.raw as int, AST_SPEED_SPAN_RAW as int),
    );
    Body {
        pos_x: Fx { raw: px as i64 },
        pos_y: Fx { raw: py as i64 },
        vel_x: Fx { raw: fx_mul_raw(fx_div_raw(pxn, pn), speed) as i64 },
        vel_y: Fx { raw: fx_mul_raw(fx_div_raw(tcx, pn), speed) as i64 },
        mass: Fx { raw: mass as i64 },
        radius: Fx { raw: radius_raw(mass) as i64 },
        color: Color { red: 160, green: 160, blue: 160 },
    }
}

/// Some quadruple of unit draws builds exactly this body.
pub open spec fn from_seed_draws(b: Body) -> bool {
    exists|u0: Fx, u1: Fx, u2: Fx, u3: Fx|
        {
            &&& unit_draw(u0)
            &&& unit_draw(u1)
            &&& unit_draw(u2)
            &&& unit_draw(u3)
            &&& b == #[trigger] spec_seed_asteroid(u0, u1, u2, u3)
        }
}

/// A body of the seeded asteroid ring: built by the seeding construction
/// from some in-range draws; in particular mid-gray, with mass in the
/// asteroid range and radius derived from the mass.
pub open spec fn seeded_body(b: Body) -> bool {
    &&& from_seed_draws(b)
    &&& b.color == (Color { red: 160, green: 160, blue: 160 })
    &&& AST_MASS_MIN_RAW <= b.mass.raw < AST_MASS_MIN_RAW + AST_MASS_SPAN_RAW
    &&& b.radius.raw == radius_raw(b.mass.raw as int)
    &&& b.radius.raw > 0
}

/// A freshly seeded store: the asteroid ring and nothing else.
pub open spec fn is_seeded(s: Store) -> bool {
    &&& s.bodies@.len() == ASTEROID_COUNT
    &&& forall|i: int| 0 <= i < s.bodies@.len() ==> seeded_body(#[trigger] s.bodies@[i])
}

/// Body `i` of the snapshot `s` after interacting, in order, with the
/// first `k` bodies of `s`, itself skipped.
pub open spec fn spec_after_pairs(s: Seq<Body>, i: int, k: int) -> Body
    decreases k,
{
    if k <= 0 {
        s[i]
    } else if k - 1 == i {
        spec_after_pairs(s, i, k - 1)
    } else {
        spec_apply_gravity(spec_after_pairs(s, i, k - 1), s[k - 1])
    }
}

/// Body `i` after the full pairwise pass over the snapshot `s`.
pub open spec fn spec_after_pass(s: Seq<Body>, i: int) -> Body {
    spec_after_pairs(s, i, s.len() as int)
}

/// Body `i` after one whole step: the full pairwise pass over the
/// snapshot, then position integration with the velocity as it stands
/// after that entire pass.
pub open spec fn spec_step_body(s: Seq<Body>, i: int, dt: Fx) -> Body {
    let p = spec_after_pass(s, i);
    Body {
        pos_x: Fx {
            raw: fx_add_raw(
                p.pos_x.raw as int,
                fx_mul_raw(p.vel_x.raw as int, dt.raw as int),
            ) as i64,
        },
        pos_y: Fx {
            raw: fx_add_raw(
                p.pos_y.raw as int,
                fx_mul_raw(p.vel_y.raw as int, dt.raw as int),
            ) as i64,
        },
        ..p
    }
}

/// A pairwise pass changes only velocities: body `i` keeps its position,
/// mass, radius and colour through its first `k` interactions.
pub proof fn lemma_pairs_change_only_velocity(s: Seq<Body>, i: int, k: int)
    ensures
        spec_after_pairs(s, i, k).pos_x == s[i].pos_x,
        spec_after_pairs(s, i, k).pos_y == s[i].pos_y,
        spec_after_pairs(s, i, k).mass == s[i].mass,
        spec_after_pairs(s, i, k).radius == s[i].radius,
        spec_after_pairs(s, i, k).color == s[i].color,
    decreases k,
{
    if k > 0 {
        lemma_pairs_change_only_velocity(s, i, k - 1);
    }
}

/// One step moves body `i` away from its pre-step position by the velocity
/// as it stands after the entire pairwise pass, scaled by the elapsed
/// time; nothing of the body changes but its velocity and position.
pub proof fn lemma_position_uses_post_pass_velocity(s: Seq<Body>, i: int, dt: Fx)
    ensures
        spec_step_body(s, i, dt).pos_x.raw == fx_add_raw(
            s[i].pos_x.raw as int,
            fx_mul_raw(spec_after_pass(s, i).vel_x.raw as int, dt.raw as int),
        ),
        spec_step_body(s, i, dt).pos_y.raw == fx_add_raw(
            s[i].pos_y.raw as int,
            fx_mul_raw(spec_after_pass(s, i).vel_y.raw as int, dt.raw as int),
        ),
        spec_step_body(s, i, dt).mass == s[i].mass,
        spec_step_body(s, i, dt).radius == s[i].radius,
        spec_step_body(s, i, dt).color == s[i].color,
{
    lemma_pairs_change_only_velocity(s, i, s.len() as int);
}

/// Build one ring asteroid from a quadruple of unit draws. The random
/// source is injected as plain values, so a caller — or a test — can fix
/// the draws and get the exact body back.
pub fn seed_asteroid(u0: Fx, u1: Fx, u2: Fx, u3: Fx) -> (b: Body)
    ensures
        b == spec_seed_asteroid(u0, u1, u2, u3),
        b.color == (Color { red: 160, green: 160, blue: 160 }),
        b.radius.raw == radius_raw(b.mass.raw as int),
        unit_draw(u2) ==> AST_MASS_MIN_RAW <= b.mass.raw < AST_MASS_MIN_RAW
            + AST_MASS_SPAN_RAW,
        unit_draw(u2) ==> b.radius.raw > 0,
{
    proof {
        if 0 <= u2.raw < FX_ONE_RAW {
            lemma_unit_scale(u2.raw as int, AST_MASS_SPAN_RAW as int);
            lemma_radius_positive(
                fx_add_raw(
                    AST_MASS_MIN_RAW as int,
                    fx_mul_raw(u2.raw as int, AST_MASS_SPAN_RAW as int),
                ),
            );
        }
    }
    let angle = fx_mul(u0, Fx { raw: FX_TAU_RAW });
    let ring_d = fx_add(Fx { raw: RING_MIN_RAW }, fx_mul(u1, Fx { raw: RING_SPAN_RAW }));
    let px = fx_add(Fx { raw: CENTER_X_RAW }, fx_mul(ring_d, fx_cos(angle)));
    let py = fx_add(Fx { raw: CENTER_Y_RAW }, fx_mul(ring_d, fx_sin(angle)));
    let mass = fx_add(Fx { raw: AST_MASS_MIN_RAW }, fx_mul(u2, Fx { raw: AST_MASS_SPAN_RAW }));
    let mut a = Body::new(px, py, mass, Color { red: 160, green: 160, blue: 160 });
    let tcx = fx_sub(Fx { raw: CENTER_X_RAW }, px);
    let tcy = fx_sub(Fx { raw: CENTER_Y_RAW }, py);
    let pxn = fx_neg(tcy);
    let pn = fx_sqrt(fx_add(fx_mul(pxn, pxn), fx_mul(tcx, tcx)));
    let tx = fx_div(pxn, pn);
    let ty = fx_div(tcx, pn);
    let speed = fx_add(Fx { raw: AST_SPEED_MIN_RAW }, fx_mul(u3, Fx { raw: AST_SPEED_SPAN_RAW }));
    a.vel_x = fx_mul(tx, speed);
    a.vel_y = fx_mul(ty, speed);
    a
}

impl Store {
    /// The seeded population: a ring of asteroids, each built by the
    /// seeding construction from four fresh unit draws — a uniformly
    /// random angle and center distance, a random mass in the asteroid
    /// range, and a tangential initial velocity of random speed.
    pub fn create_default() -> (s: Store)
        ensures
            is_seeded(s),
    {
        let mut bodies: Vec<Body> = Vec::new();
        let mut k: usize = 0;
        while k < ASTEROID_COUNT
            invariant
                bodies@.len() == k,
                k <= ASTEROID_COUNT,
                forall|i: int| 0 <= i < k ==> seeded_body(#[trigger] bodies@[i]),
            decreases ASTEROID_COUNT - k,
        {
            let u0 = rand_unit();
            let u1 = rand_unit();
            let u2 = rand_unit();
            let u3 = rand_unit();
            let a = seed_asteroid(u0, u1, u2, u3);
            proof {
                assert(unit_draw(u0) && unit_draw(u1) && unit_draw(u2) && unit_draw(u3));
                assert(from_seed_draws(a));
            }
            bodies.push(a);
            k = k + 1;
        }
        Store { bodies }
    }

    /// Append one body for a spawn request: at rest, radius derived from
    /// the mass. A non-positive mass is rejected and the store is left as
    /// it was; the spec leaves such a body undefined, so the policy here is
    /// to refuse it.
    pub fn add_body(&mut self, pos_x: Fx, pos_y: Fx, mass: Fx, color: Color) -> (r: Result<
        (),
        SimError,
    >)
        ensures
            mass.raw <= 0 ==> r == Result::<(), SimError>::Err(SimError::InvalidBody)
                && final(self).bodies@ == old(self).bodies@,
            mass.raw > 0 ==> r == Result::<(), SimError>::Ok(()) && final(self).bodies@ == old(
                self,
            ).bodies@.push(spec_new_body(pos_x, pos_y, mass, color)),
    {
        if mass.raw <= 0 {
            return Err(SimError::InvalidBody);
        }
        self.bodies.push(Body::new(pos_x, pos_y, mass, color));
        Ok(())
    }

    /// Spawn one planet at a uniformly random position in the spawn area,
    /// with a uniformly random mass in the planet range and a random
    /// colour. The new body starts at rest with its radius derived from
    /// its mass; everything already stored is untouched.
    pub fn add_random_body(&mut self)
        ensures
            final(self).bodies@.len() == old(self).bodies@.len() + 1,
            forall|i: int| 0 <= i < old(self).bodies@.len() ==> final(self).bodies@[i] == old(
                self,
            ).bodies@[i],
            final(self).bodies@.last().vel_x.raw == 0,
            final(self).bodies@.last().vel_y.raw == 0,
            PLANET_MASS_MIN_RAW <= final(self).bodies@.last().mass.raw < PLANET_MASS_MIN_RAW
                + PLANET_MASS_SPAN_RAW,
            final(self).bodies@.last().radius.raw == radius_raw(
                final(self).bodies@.last().mass.raw as int,
            ),
            0 <= final(self).bodies@.last().pos_x.raw < SPAWN_W_RAW,
            0 <= final(self).bodies@.last().pos_y.raw < SPAWN_H_RAW,
            final(self).bodies@.last().radius.raw > 0,
    {
        let ux = rand_unit();
        let uy = rand_unit();
        let u = rand_unit();
        proof {
            lemma_unit_scale(ux.raw as int, SPAWN_W_RAW as int);
            lemma_unit_scale(uy.raw as int, SPAWN_H_RAW as int);
            lemma_unit_scale(u.raw as int, PLANET_MASS_SPAN_RAW as int);
        }
        let px = fx_mul(ux, Fx { raw: SPAWN_W_RAW });
        let py = fx_mul(uy, Fx { raw: SPAWN_H_RAW });
        let mass = fx_add(Fx { raw: PLANET_MASS_MIN_RAW }, fx_mul(u, Fx { raw: PLANET_MASS_SPAN_RAW }));
        proof {
            lemma_radius_positive(mass.raw as int);
        }
        let red: u8 = rand::random();
        let green: u8 = rand::random();
        let blue: u8 = rand::random();
        let _ = self.add_body(px, py, mass, Color { red, green, blue });
    }

    /// Replace the store's contents with a freshly seeded population.
    pub fn reset(&mut self)
        ensures
            is_seeded(*final(self)),
    {
        let fresh = Store::create_default();
        self.bodies = fresh.bodies;
    }

    /// One full step. Every ordered pair of distinct bodies interacts on a
    /// consistent snapshot of the pre-step state — an interaction reads
    /// only the other body's position, mass and radius, never a velocity
    /// already updated this step — and every position then advances by the
    /// velocity as it stands after the entire pairwise pass, scaled by the
    /// elapsed time `dt`.
    pub fn step(&mut self, dt: Fx)
        ensures
            final(self).bodies@.len() == old(self).bodies@.len(),
            forall|i: int| 0 <= i < old(self).bodies@.len() ==> final(self).bodies@[i]
                == spec_step_body(old(self).bodies@, i, dt),
            forall|i: int| 0 <= i < old(self).bodies@.len() ==> {
                &&& (#[trigger] final(self).bodies@[i]).mass == old(self).bodies@[i].mass
                &&& final(self).bodies@[i].radius == old(self).bodies@[i].radius
                &&& final(self).bodies@[i].color == old(self).bodies@[i].color
            },
    {
        let ghost snap = self.bodies@;
        let n = self.bodies.len();
        let mut out: Vec<Body> = Vec::new();
        let mut i: usize = 0;
        while i < n
            invariant
                n == snap.len(),
                self.bodies@ == snap,
                out@.len() == i,
                i <= n,
                forall|k: int| 0 <= k < i ==> out@[k] == spec_step_body(snap, k, dt),
            decreases n - i,
        {
            let mut b = self.bodies[i];
            assert(b == spec_after_pairs(snap, i as int, 0));
            let mut j: usize = 0;
            while j < n
                invariant
                    n == snap.len(),
                    self.bodies@ == snap,
                    j <= n,
                    i < n,
                    b == spec_after_pairs(snap, i as int, j as int),
                decreases n - j,
            {
                if j != i {
                    let other = self.bodies[j];
                    b.apply_gravity(&other);
                }
                assert(b == spec_after_pairs(snap, i as int, j as int + 1));
                j = j + 1;
            }
            assert(b == spec_after_pass(snap, i as int));
            b.update(dt);
            assert(b == spec_step_body(snap, i as int, dt));
            out.push(b);
            i = i + 1;
        }
        self.bodies = out;
        proof {
            assert forall|k: int| 0 <= k < snap.len() implies {
                &&& (#[trigger] self.bodies@[k]).mass == snap[k].mass
                &&& self.bodies@[k].radius == snap[k].radius
                &&& self.bodies@[k].color == snap[k].color
            } by {
                lemma_pairs_change_only_velocity(snap, k, snap.len() as int);
            }
        }
    }
}

/// A reset store and a freshly created one hold populations of the same
/// size, whatever values the two seedings drew.
pub proof fn lemma_reset_size_matches_fresh(a: Store, b: Store)
    requires
        is_seeded(a),
        is_seeded(b),
    ensures
        a.bodies@.len() == b.bodies@.len(),
{
}

} // verus!
