//! The parameters that shape one harmonic.

use vstd::prelude::*;
use crate::engine::chart_type::ChartType;
use crate::params::curve_type::CurveType;

verus! {

/// The values of one harmonic's parameters: for its amplitude and for its
/// phase, the shape of the curve, its offset, and the amplitude and
/// frequency of its sine.
#[derive(Debug, Clone, Copy)]
pub struct HarmonicParam<T> {
    pub curve_offset_amp: T,
    pub curve_offset_phase: T,
    pub curve_type_amp: CurveType,
    pub curve_type_phase: CurveType,
    pub sine_curve_amp_amp: T,
    pub sine_curve_freq_amp: T,
    pub sine_curve_amp_phase: T,
    pub sine_curve_freq_phase: T,
}

/// The parameters of one curve of a harmonic.
#[derive(Debug, Clone, Copy)]
pub struct CurveParam<T> {
    /// Value around which the curve lies.
    pub offset: T,
    /// Amplitude of the sine.
    pub sine_amp: T,
    /// Frequency of the sine in cycles per bucket.
    pub sine_freq: T,
    /// Shape of the curve.
    pub curve_type: CurveType,
}

impl<T: Copy> HarmonicParam<T> {
    /// The parameters of the harmonic's curve in the domain `chart_type`.
    pub open spec fn curve_of(&self, chart_type: ChartType) -> CurveParam<T> {
        match chart_type {
            ChartType::Amp => CurveParam {
                offset: self.curve_offset_amp,
                sine_amp: self.sine_curve_amp_amp,
                sine_freq: self.sine_curve_freq_amp,
                curve_type: self.curve_type_amp,
            },
            ChartType::Phase => CurveParam {
                offset: self.curve_offset_phase,
                sine_amp: self.sine_curve_amp_phase,
                sine_freq: self.sine_curve_freq_phase,
                curve_type: self.curve_type_phase,
            },
        }
    }

    /// The parameters of the harmonic's curve in the domain `chart_type`.
    pub fn curve(&self, chart_type: ChartType) -> (curve: CurveParam<T>)
        ensures
            curve == self.curve_of(chart_type),
    {
        match chart_type {
            ChartType::Amp => CurveParam {
                offset: self.curve_offset_amp,
                sine_amp: self.sine_curve_amp_amp,
                sine_freq: self.sine_curve_freq_amp,
                curve_type: self.curve_type_amp,
            },
            ChartType::Phase => CurveParam {
                offset: self.curve_offset_phase,
                sine_amp: self.sine_curve_amp_phase,
                sine_freq: self.sine_curve_freq_phase,
                curve_type: self.curve_type_phase,
            },
        }
    }
}

} // verus!
