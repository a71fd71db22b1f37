//! What an edit of the controls of one curve does to the engine.
//!
//! Each curve of a harmonic has five controls: sliders for the offset and
//! for the amplitude and the frequency of the sine, a selector for the shape,
//! and a box that switches the curve on and off. The widgets themselves are
//! the editor's; the rules by which an edit changes the engine are here.

use vstd::prelude::*;
use crate::engine::chart_type::ChartType;
use crate::engine::curves::sine_defined;
use crate::engine::shared_params::SharedParams;
use crate::params::curve_type::CurveType;
use crate::params::harmonic::{CurveParam, HarmonicParam};

verus! {

/// What the user did to the controls of one curve.
#[derive(Debug, Clone, Copy, PartialEq, Eq, Structural)]
pub enum CurveEdit {
    /// The offset slider was let go.
    Offset,
    /// The slider for the amplitude of the sine was let go.
    SineAmp,
    /// The slider for the frequency of the sine was let go.
    SineFreq,
    /// A shape was picked in the selector.
    Shape(CurveType),
    /// The box that switches the curve on and off was set.
    Enabled(bool),
}

/// What is left for the editor to do after an edit.
#[derive(Debug, Clone, Copy, PartialEq, Eq, Structural)]
pub struct EditOutcome {
    /// Whether the parameters count as changed.
    pub params_changed: bool,
    /// Whether the edit changed a table or a flag of the store, so that the
    /// chart of the assembled waveform is to be drawn anew.
    pub chart_outdated: bool,
}

/// The shape with which a curve is filled anew after `edit`, if it is: the
/// curve's own shape after its offset was set, a sine after a parameter of
/// the sine was set on a sine, and the shape that was picked.
pub open spec fn shape_to_refill(edit: CurveEdit, curve_type: CurveType) -> Option<CurveType> {
    match edit {
        CurveEdit::Offset => Some(curve_type),
        CurveEdit::SineAmp | CurveEdit::SineFreq => match curve_type {
            CurveType::Sine => Some(CurveType::Sine),
            CurveType::Constant => None,
        },
        CurveEdit::Shape(picked) => Some(picked),
        CurveEdit::Enabled(_) => None,
    }
}

/// The shape with which a curve of shape `curve_type` is filled anew after
/// `edit`, if it is.
pub fn curve_to_refill(edit: CurveEdit, curve_type: CurveType) -> (shape: Option<CurveType>)
    ensures
        shape == shape_to_refill(edit, curve_type),
{
    match edit {
        CurveEdit::Offset => Some(curve_type),
        CurveEdit::SineAmp | CurveEdit::SineFreq => match curve_type {
            CurveType::Sine => Some(CurveType::Sine),
            CurveType::Constant => None,
        },
        CurveEdit::Shape(picked) => Some(picked),
        CurveEdit::Enabled(_) => None,
    }
}

impl<T: Copy> SharedParams<T> {
    /// Whether this store is `before` after `edit` of the controls of the
    /// curve in row `harmonic_index` of the domain `chart_type`, whose
    /// parameters are `curve`. An edit of a slider or of the selector fills
    /// the curve anew where `shape_to_refill` says so, and leaves the store
    /// as it is where not. Setting the box sets the curve's enable flag.
    pub open spec fn is_edit<F: Fn(T, T, T, usize) -> T>(
        &self,
        before: &Self,
        harmonic_index: usize,
        chart_type: ChartType,
        curve: CurveParam<T>,
        edit: CurveEdit,
        sine_at: F,
    ) -> bool {
        match edit {
            CurveEdit::Enabled(enabled) => self.is_enabling(
                before,
                harmonic_index,
                chart_type,
                enabled,
            ),
            _ => match shape_to_refill(edit, curve.curve_type) {
                Some(CurveType::Constant) => self.is_constant_fill(
                    before,
                    harmonic_index,
                    curve.offset,
                    chart_type,
                ),
                Some(CurveType::Sine) => self.is_sine_fill(
                    before,
                    harmonic_index,
                    chart_type,
                    curve,
                    sine_at,
                ),
                None => *self == *before,
            },
        }
    }

    /// What is left for the editor to do after `edit` of the controls of a
    /// curve of shape `curve_type`. Setting the box to what it was leaves
    /// nothing to do; setting it otherwise changes the parameters and
    /// outdates the chart. Any other edit changes the parameters, and
    /// outdates the chart if it fills a curve anew.
    pub open spec fn outcome_of(
        &self,
        harmonic_index: usize,
        chart_type: ChartType,
        curve_type: CurveType,
        edit: CurveEdit,
    ) -> EditOutcome {
        match edit {
            CurveEdit::Enabled(enabled) => {
                let changed = self.enabling_changes(harmonic_index, chart_type, enabled);
                EditOutcome { params_changed: changed, chart_outdated: changed }
            },
            _ => EditOutcome {
                params_changed: true,
                chart_outdated: shape_to_refill(edit, curve_type).is_some() && harmonic_index
                    < self.table(chart_type).len(),
            },
        }
    }

    /// Applies `edit` of the controls of the curve in row `harmonic_index`
    /// of the domain `chart_type` to the store, and tells what is left for
    /// the editor to do. `harmonic` holds the parameters of the harmonic as
    /// they are after the edit.
    pub fn apply_curve_edit<F: Fn(T, T, T, usize) -> T>(
        &mut self,
        harmonic_index: usize,
        chart_type: ChartType,
        harmonic: &HarmonicParam<T>,
        edit: CurveEdit,
        sine_at: &F,
    ) -> (outcome: EditOutcome)
        requires
            sine_defined(
                *sine_at,
                harmonic.curve_of(chart_type).offset,
                harmonic.curve_of(chart_type).sine_amp,
                harmonic.curve_of(chart_type).sine_freq,
                old(self).curve_len(harmonic_index, chart_type),
            ),
        ensures
            final(self).is_edit(
                old(self),
                harmonic_index,
                chart_type,
                harmonic.curve_of(chart_type),
                edit,
                *sine_at,
            ),
            outcome == old(self).outcome_of(
                harmonic_index,
                chart_type,
                harmonic.curve_of(chart_type).curve_type,
                edit,
            ),
            old(self).wf() ==> final(self).wf(),
    {
        match edit {
            CurveEdit::Enabled(enabled) => {
                let changed: bool = self.set_harmonic_enabled(harmonic_index, chart_type, enabled);
                EditOutcome { params_changed: changed, chart_outdated: changed }
            },
            _ => {
                let curve: CurveParam<T> = harmonic.curve(chart_type);
                let has_curve: bool = match chart_type {
                    ChartType::Amp => harmonic_index < self.amplitude_data.len(),
                    ChartType::Phase => harmonic_index < self.phase_data.len(),
                };
                let refilled: bool = match curve_to_refill(edit, curve.curve_type) {
                    Some(CurveType::Constant) => {
                        self.fill_constant_curve(harmonic_index, curve.offset, chart_type);
                        has_curve
                    },
                    Some(CurveType::Sine) => {
                        self.fill_sin_curve(harmonic_index, chart_type, harmonic, sine_at);
                        has_curve
                    },
                    None => false,
                };
                EditOutcome { params_changed: true, chart_outdated: refilled }
            },
        }
    }
}

} // verus!
