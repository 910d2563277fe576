//! Resonance and impedance calculator for LC circuits, over arbitrary-precision
//! binary floating-point numbers.

pub mod calculations;
pub mod consts;
pub mod logic;
pub mod conversions;
pub mod types;
pub mod units;
pub mod utils;
