//! Exact arithmetic for a two-component fuel mixture.
//!
//! A mixture request gives a total mass in grams and the mass shares of the
//! two fuel components.  The library validates that the shares sum to one
//! within a fixed tolerance, and converts the masses to millilitre volumes
//! using fixed densities.  Every quantity is held as an exact rational
//! number, so the stated contracts hold with no rounding anywhere.

pub mod mixture;
pub mod rational;
pub mod service;
