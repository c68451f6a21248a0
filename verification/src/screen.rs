//! Projection of world coordinates onto the screen.
//!
//! The host pans a camera over the world and zooms it; a world point lands
//! on the screen at its offset from the camera, scaled by the zoom, laid
//! off from the viewport's center.

use vstd::prelude::*;
use crate::fx::{Fx, fx_add, fx_sub, fx_mul, fx_add_raw, fx_sub_raw, fx_mul_raw};

verus! {

/// Raw screen coordinate of a world coordinate under a camera, zoom and
/// viewport center: `center + (world - camera) * zoom`.
pub open spec fn screen_raw(world: int, camera: int, zoom: int, center: int) -> int {
    fx_add_raw(center, fx_mul_raw(fx_sub_raw(world, camera), zoom))
}

/// Project a world point to screen space.
pub fn world_to_screen(
    world_x: Fx,
    world_y: Fx,
    camera_x: Fx,
    camera_y: Fx,
    zoom: Fx,
    center_x: Fx,
    center_y: Fx,
) -> (r: (Fx, Fx))
    ensures
        r.0.raw == screen_raw(world_x.raw as int, camera_x.raw as int, zoom.raw as int, center_x.raw as int),
        r.1.raw == screen_raw(world_y.raw as int, camera_y.raw as int, zoom.raw as int, center_y.raw as int),
{
    let sx = fx_add(center_x, fx_mul(fx_sub(world_x, camera_x), zoom));
    let sy = fx_add(center_y, fx_mul(fx_sub(world_y, camera_y), zoom));
    (sx, sy)
}

} // verus!
