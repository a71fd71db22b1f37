//! The shapes a control curve can take.

use vstd::prelude::*;

verus! {

/// The shape of a control curve across the buckets of a harmonic.
#[derive(Debug, Clone, Copy, PartialEq, Eq, Structural)]
pub enum CurveType {
    /// Every bucket holds the offset.
    Constant,
    /// The buckets follow a sine around the offset.
    Sine,
}

impl CurveType {
    /// Every shape, in the order in which a selector offers them.
    pub const VARIANTS: [CurveType; 2] = [CurveType::Constant, CurveType::Sine];
}

} // verus!
