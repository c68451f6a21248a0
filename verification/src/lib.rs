//! A small gravitational many-body simulator.
//!
//! A store of point masses attracts pairwise under an inverse-square law,
//! with a closeness gate that keeps overlapping bodies gravitationally inert
//! toward each other and a tangential kick that nudges light bodies into
//! orbits around much heavier neighbours. All quantities are binary
//! fixed-point scalars, so every computation the stepper performs is stated
//! and verified exactly.

pub mod body;
pub mod fx;
pub mod screen;
pub mod store;

