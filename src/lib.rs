//! A single body on an undamped spring, stepped with semi-implicit Euler
//! integration in fixed-point arithmetic.
//!
//! Every length, velocity, mass, stiffness and time is held as an integer
//! count of thousandths of its unit, so a position of `12_500` is 12.5
//! pixels and a mass of `40_000` is 40.0 mass units.

pub mod body;
pub mod lemmas;
