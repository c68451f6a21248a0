//! A simulated body and the physics of one pairwise interaction.
//!
//! A body attracts toward another under an inverse-square law, gated by
//! closeness: a pair separated by no more than the sum of its collision
//! radii is gravitationally inert for the step. A light body near a much
//! heavier one additionally receives a fixed tangential velocity kick, the
//! orbit-assist heuristic. Both effects change only the velocity; positions
//! advance later, in the integration pass.

use vstd::prelude::*;
use vstd::arithmetic::div_mod::{lemma_div_by_multiple, lemma_div_is_ordered};
use crate::fx::{
    Fx, fx_add, fx_sub, fx_neg, fx_mul, fx_div, fx_sqrt, fx_add_raw, fx_sub_raw, fx_neg_raw,
    fx_mul_raw, fx_div_raw, fx_sqrt_raw, lemma_isqrt_bracket, spec_isqrt, FX_MAX_RAW, FX_ONE_RAW,
    FX_PI_RAW,
};

verus! {

/// Raw gravitational constant: 6.67430e-5 at scale `2^24`, chosen for
/// visual scale rather than physical accuracy.
pub const G_RAW: i64 = 1120;

/// Raw representation of 2.
pub const TWO_RAW: i64 = 33554432;

/// Raw representation of 5: the dominance ratio of the orbit-assist check.
pub const FIVE_RAW: i64 = 83886080;

/// Raw magnitude of the tangential orbit-assist kick: 0.05 at scale `2^24`.
pub const KICK_RAW: i64 = 838861;

/// Raw orbit-assist range: 150 at scale `2^24`.
pub const KICK_RANGE_RAW: i64 = 2516582400;

/// An opaque render colour carried along with each body.
#[derive(Clone, Copy, PartialEq, Eq, Structural, Debug)]
pub struct Color {
    pub red: u8,
    pub green: u8,
    pub blue: u8,
}

/// One simulated mass: position and velocity in world units, an immutable
/// mass, and a collision radius derived from the mass at creation.
#[derive(Clone, Copy, PartialEq, Eq, Structural, Debug)]
pub struct Body {
    pub pos_x: Fx,
    pub pos_y: Fx,
    pub vel_x: Fx,
    pub vel_y: Fx,
    pub mass: Fx,
    pub radius: Fx,
    pub color: Color,
}

/// Raw collision radius derived from a mass: `sqrt(mass / pi) / 2`.
pub open spec fn radius_raw(mass: int) -> int {
    fx_div_raw(fx_sqrt_raw(fx_div_raw(mass, FX_PI_RAW as int)), TWO_RAW as int)
}

/// x component of the separation vector, pointing from `b` toward `o`.
pub open spec fn dir_x_raw(b: Body, o: Body) -> int {
    fx_sub_raw(o.pos_x.raw as int, b.pos_x.raw as int)
}

/// y component of the separation vector, pointing from `b` toward `o`.
pub open spec fn dir_y_raw(b: Body, o: Body) -> int {
    fx_sub_raw(o.pos_y.raw as int, b.pos_y.raw as int)
}

/// Squared separation distance.
pub open spec fn dist_sq_raw(b: Body, o: Body) -> int {
    fx_add_raw(
        fx_mul_raw(dir_x_raw(b, o), dir_x_raw(b, o)),
        fx_mul_raw(dir_y_raw(b, o), dir_y_raw(b, o)),
    )
}

/// Squared sum of the two collision radii.
pub open spec fn radius_sum_sq_raw(b: Body, o: Body) -> int {
    let s = fx_add_raw(b.radius.raw as int, o.radius.raw as int);
    fx_mul_raw(s, s)
}

/// The closeness gate: gravity (and the kick) act only when the bodies are
/// separated by strictly more than the sum of their radii.
pub open spec fn gate_open(b: Body, o: Body) -> bool {
    dist_sq_raw(b, o) > radius_sum_sq_raw(b, o)
}

/// Separation distance.
pub open spec fn dist_raw(b: Body, o: Body) -> int {
    fx_sqrt_raw(dist_sq_raw(b, o))
}

/// Magnitude of the gravitational force: `G * mass(b) * mass(o) / dist_sq`.
/// The mass product is formed first, so the magnitude is symmetric in the
/// two bodies.
pub open spec fn force_mag_raw(b: Body, o: Body) -> int {
    fx_div_raw(
        fx_mul_raw(G_RAW as int, fx_mul_raw(b.mass.raw as int, o.mass.raw as int)),
        dist_sq_raw(b, o),
    )
}

/// Velocity increment of `b` due to gravity, x component:
/// `normalize(dir).x * force_mag / mass(b)`.
pub open spec fn grav_dv_x_raw(b: Body, o: Body) -> int {
    fx_div_raw(
        fx_mul_raw(fx_div_raw(dir_x_raw(b, o), dist_raw(b, o)), force_mag_raw(b, o)),
        b.mass.raw as int,
    )
}

/// Velocity increment of `b` due to gravity, y component.
pub open spec fn grav_dv_y_raw(b: Body, o: Body) -> int {
    fx_div_raw(
        fx_mul_raw(fx_div_raw(dir_y_raw(b, o), dist_raw(b, o)), force_mag_raw(b, o)),
        b.mass.raw as int,
    )
}

/// Every condition of the orbit-assist nudge at once: an open gate,
/// separation inside the assist range, and a dominant neighbour.
pub open spec fn kick_applies(b: Body, o: Body) -> bool {
    &&& gate_open(b, o)
    &&& dist_raw(b, o) < KICK_RANGE_RAW
    &&& o.mass.raw > fx_mul_raw(b.mass.raw as int, FIVE_RAW as int)
}

/// Norm of the perpendicular vector `(-dir_y, dir_x)`.
pub open spec fn perp_norm_raw(b: Body, o: Body) -> int {
    fx_sqrt_raw(
        fx_add_raw(
            fx_mul_raw(fx_neg_raw(dir_y_raw(b, o)), fx_neg_raw(dir_y_raw(b, o))),
            fx_mul_raw(dir_x_raw(b, o), dir_x_raw(b, o)),
        ),
    )
}

/// Tangential kick increment, x component: the normalized perpendicular
/// vector scaled by the kick magnitude.
pub open spec fn kick_dv_x_raw(b: Body, o: Body) -> int {
    fx_mul_raw(fx_div_raw(fx_neg_raw(dir_y_raw(b, o)), perp_norm_raw(b, o)), KICK_RAW as int)
}

/// Tangential kick increment, y component.
pub open spec fn kick_dv_y_raw(b: Body, o: Body) -> int {
    fx_mul_raw(fx_div_raw(dir_x_raw(b, o), perp_norm_raw(b, o)), KICK_RAW as int)
}

/// Velocity of `b` after one pairwise interaction with `o`, x component.
pub open spec fn vel_after_pair_x_raw(b: Body, o: Body) -> int {
    if !gate_open(b, o) {
        b.vel_x.raw as int
    } else {
        let g = fx_add_raw(b.vel_x.raw as int, grav_dv_x_raw(b, o));
        if kick_applies(b, o) {
            fx_add_raw(g, kick_dv_x_raw(b, o))
        } else {
            g
        }
    }
}

/// Velocity of `b` after one pairwise interaction with `o`, y component.
pub open spec fn vel_after_pair_y_raw(b: Body, o: Body) -> int {
    if !gate_open(b, o) {
        b.vel_y.raw as int
    } else {
        let g = fx_add_raw(b.vel_y.raw as int, grav_dv_y_raw(b, o));
        if kick_applies(b, o) {
            fx_add_raw(g, kick_dv_y_raw(b, o))
        } else {
            g
        }
    }
}

/// `b` after one pairwise interaction with `o`: only the velocity changes.
/// The interaction reads only the position, mass and radius of `o`.
pub open spec fn spec_apply_gravity(b: Body, o: Body) -> Body {
    Body {
        vel_x: Fx { raw: vel_after_pair_x_raw(b, o) as i64 },
        vel_y: Fx { raw: vel_after_pair_y_raw(b, o) as i64 },
        ..b
    }
}

/// The post-pair velocities fit an `i64`, so `spec_apply_gravity` loses
/// nothing to truncation.
pub proof fn lemma_vel_after_pair_fits(b: Body, o: Body)
    ensures
        vel_after_pair_x_raw(b, o) as i64 == vel_after_pair_x_raw(b, o),
        vel_after_pair_y_raw(b, o) as i64 == vel_after_pair_y_raw(b, o),
{
}

impl Body {
    /// A new body at rest: zero velocity, radius derived from the mass.
    pub fn new(pos_x: Fx, pos_y: Fx, mass: Fx, color: Color) -> (b: Body)
        ensures
            b.pos_x == pos_x,
            b.pos_y == pos_y,
            b.vel_x.raw == 0,
            b.vel_y.raw == 0,
            b.mass == mass,
            b.radius.raw == radius_raw(mass.raw as int),
            b.color == color,
    {
        let radius = fx_div(fx_sqrt(fx_div(mass, Fx { raw: FX_PI_RAW })), Fx { raw: TWO_RAW });
        Body {
            pos_x,
            pos_y,
            vel_x: Fx { raw: 0 },
            vel_y: Fx { raw: 0 },
            mass,
            radius,
            color,
        }
    }

    /// One pairwise interaction: accelerate toward `other`, unless the
    /// closeness gate suppresses the pair, and add the orbit-assist kick
    /// when `other` dominates nearby. Only the velocity changes.
    pub fn apply_gravity(&mut self, other: &Body)
        ensures
            *final(self) == spec_apply_gravity(*old(self), *other),
    {
        proof {
            lemma_vel_after_pair_fits(*old(self), *other);
        }
        let dx = fx_sub(other.pos_x, self.pos_x);
        let dy = fx_sub(other.pos_y, self.pos_y);
        let dist_sq = fx_add(fx_mul(dx, dx), fx_mul(dy, dy));
        let rsum = fx_add(self.radius, other.radius);
        let rsum_sq = fx_mul(rsum, rsum);
        if dist_sq.raw > rsum_sq.raw {
            let dist = fx_sqrt(dist_sq);
            let force_mag = fx_div(
                fx_mul(Fx { raw: G_RAW }, fx_mul(self.mass, other.mass)),
                dist_sq,
            );
            let nx = fx_div(dx, dist);
            let ny = fx_div(dy, dist);
            self.vel_x = fx_add(self.vel_x, fx_div(fx_mul(nx, force_mag), self.mass));
            self.vel_y = fx_add(self.vel_y, fx_div(fx_mul(ny, force_mag), self.mass));
            if dist.raw < KICK_RANGE_RAW && other.mass.raw > fx_mul(self.mass, Fx { raw: FIVE_RAW }).raw {
                let px = fx_neg(dy);
                let pn = fx_sqrt(fx_add(fx_mul(px, px), fx_mul(dx, dx)));
                let tx = fx_div(px, pn);
                let ty = fx_div(dx, pn);
                self.vel_x = fx_add(self.vel_x, fx_mul(tx, Fx { raw: KICK_RAW }));
                self.vel_y = fx_add(self.vel_y, fx_mul(ty, Fx { raw: KICK_RAW }));
            }
        }
    }

    /// Advance the position by one step of the elapsed time: only the
    /// position changes.
    pub fn update(&mut self, dt: Fx)
        ensures
            final(self).pos_x.raw == fx_add_raw(
                old(self).pos_x.raw as int,
                fx_mul_raw(old(self).vel_x.raw as int, dt.raw as int),
            ),
            final(self).pos_y.raw == fx_add_raw(
                old(self).pos_y.raw as int,
                fx_mul_raw(old(self).vel_y.raw as int, dt.raw as int),
            ),
            final(self).vel_x == old(self).vel_x,
            final(self).vel_y == old(self).vel_y,
            final(self).mass == old(self).mass,
            final(self).radius == old(self).radius,
            final(self).color == old(self).color,
    {
        self.pos_x = fx_add(self.pos_x, fx_mul(self.vel_x, dt));
        self.pos_y = fx_add(self.pos_y, fx_mul(self.vel_y, dt));
    }
}

/// Any mass of at least four raw quanta yields a strictly positive
/// collision radius; below that machine limit (masses under about
/// 2.4e-7) the derived radius rounds to zero.
pub proof fn lemma_radius_positive(m: int)
    requires
        4 <= m <= FX_MAX_RAW,
    ensures
        radius_raw(m) > 0,
{
    let s_one = FX_ONE_RAW as int;
    let pi = FX_PI_RAW as int;
    let two = TWO_RAW as int;
    // the scaled mass clears pi, so the inner quotient is at least 1
    assert(4 * s_one <= m * s_one) by (nonlinear_arith)
        requires
            4 <= m,
            0 < s_one,
    ;
    lemma_div_is_ordered(pi, m * s_one, pi);
    lemma_div_by_multiple(1, pi);
    // and it is at most m, so saturation leaves it untouched
    assert(m * s_one <= m * pi) by (nonlinear_arith)
        requires
            0 <= m,
            s_one <= pi,
    ;
    lemma_div_is_ordered(m * s_one, m * pi, pi);
    lemma_div_by_multiple(m, pi);
    let q = fx_div_raw(m, pi);
    assert(q == m * s_one / pi);
    assert(1 <= q <= m);
    // the square root of at least one whole quantum is at least 2^12
    let n = q * s_one;
    assert(s_one <= n) by (nonlinear_arith)
        requires
            n == q * s_one,
            1 <= q,
            0 < s_one,
    ;
    lemma_isqrt_bracket(n);
    let root = spec_isqrt(n);
    assert(root >= 4096) by (nonlinear_arith)
        requires
            root >= 0,
            n < (root + 1) * (root + 1),
            n >= 16777216,
    ;
    assert(fx_sqrt_raw(q) == root);
    // halving keeps it strictly positive
    assert(4096 * s_one <= root * s_one) by (nonlinear_arith)
        requires
            4096 <= root,
            0 < s_one,
    ;
    lemma_div_is_ordered(4096 * s_one, root * s_one, two);
    assert(4096 * s_one / two == 2048) by (nonlinear_arith)
        requires
            s_one == 16777216,
            two == 33554432,
    ;
    assert(radius_raw(m) == fx_div_raw(root, two));
}

/// The closeness gate is inert: a pair separated by no more than the sum
/// of its radii — at equality as well as below — changes neither velocity
/// component of either body in that pair.
pub proof fn lemma_gate_inert(b: Body, o: Body)
    requires
        dist_sq_raw(b, o) <= radius_sum_sq_raw(b, o),
    ensures
        spec_apply_gravity(b, o) == b,
        spec_apply_gravity(o, b) == o,
{
    lemma_dist_sq_symmetric(b, o);
    assert(radius_sum_sq_raw(o, b) == radius_sum_sq_raw(b, o));
}

/// The squared separation is symmetric in the two bodies.
pub proof fn lemma_dist_sq_symmetric(b: Body, o: Body)
    ensures
        dist_sq_raw(b, o) == dist_sq_raw(o, b),
{
    assert(dir_x_raw(o, b) == -dir_x_raw(b, o));
    assert(dir_y_raw(o, b) == -dir_y_raw(b, o));
    assert(fx_mul_raw(dir_x_raw(o, b), dir_x_raw(o, b)) == fx_mul_raw(
        dir_x_raw(b, o),
        dir_x_raw(b, o),
    ));
    assert(fx_mul_raw(dir_y_raw(o, b), dir_y_raw(o, b)) == fx_mul_raw(
        dir_y_raw(b, o),
        dir_y_raw(b, o),
    ));
}

/// The gravitational force magnitude is symmetric: `b` attracts `o`
/// exactly as strongly as `o` attracts `b`.
pub proof fn lemma_force_symmetric(b: Body, o: Body)
    ensures
        force_mag_raw(b, o) == force_mag_raw(o, b),
{
    lemma_dist_sq_symmetric(b, o);
    assert(fx_mul_raw(b.mass.raw as int, o.mass.raw as int) == fx_mul_raw(
        o.mass.raw as int,
        b.mass.raw as int,
    ));
}

/// The tangential nudge fires iff all three of its conditions hold
/// together — an open gate, a neighbour nearer than the assist range, a
/// neighbour more than five times as heavy — and it then contributes its
/// exact increment after the pull, contributing nothing in every other
/// case.
pub proof fn lemma_kick_exactly_when(b: Body, o: Body)
    ensures
        kick_applies(b, o) <==> (gate_open(b, o) && dist_raw(b, o) < KICK_RANGE_RAW
            && o.mass.raw > fx_mul_raw(b.mass.raw as int, FIVE_RAW as int)),
        kick_applies(b, o) ==> vel_after_pair_x_raw(b, o) == fx_add_raw(
            fx_add_raw(b.vel_x.raw as int, grav_dv_x_raw(b, o)),
            kick_dv_x_raw(b, o),
        ),
        kick_applies(b, o) ==> vel_after_pair_y_raw(b, o) == fx_add_raw(
            fx_add_raw(b.vel_y.raw as int, grav_dv_y_raw(b, o)),
            kick_dv_y_raw(b, o),
        ),
        gate_open(b, o) && !kick_applies(b, o) ==> vel_after_pair_x_raw(b, o) == fx_add_raw(
            b.vel_x.raw as int,
            grav_dv_x_raw(b, o),
        ),
        gate_open(b, o) && !kick_applies(b, o) ==> vel_after_pair_y_raw(b, o) == fx_add_raw(
            b.vel_y.raw as int,
            grav_dv_y_raw(b, o),
        ),
{
}

} // verus!
