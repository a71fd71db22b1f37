//! Parameters that the host controls.

pub mod curve_type;
pub mod harmonic;

pub use curve_type::CurveType;
pub use harmonic::{CurveParam, HarmonicParam};
