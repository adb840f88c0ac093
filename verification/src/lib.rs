//! Sutherland-Hodgman polygon clipping over IEEE 754 binary64 coordinates.
//!
//! Coordinates are carried as bit patterns. Everything that compares,
//! classifies, selects and orders vertices is decided here; the arithmetic
//! that produces cross products and solves for crossing points is left to the
//! caller, who hands its results in as [`scalar::Scalar`] values.

pub mod calculator;
pub mod laws;
pub mod line;
pub mod point;
pub mod polygon;
pub mod position;
pub mod scalar;
pub mod sutherland_hodgman;
