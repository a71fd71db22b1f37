//! The two domains in which a harmonic is shaped.

use vstd::prelude::*;

verus! {

/// Which of a harmonic's two curves is meant: its amplitude or its phase.
#[derive(Debug, Clone, Copy, PartialEq, Eq, Structural)]
pub enum ChartType {
    Amp,
    Phase,
}

} // verus!
