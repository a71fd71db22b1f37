//! The harmonic tables: the amplitude and phase curves of each harmonic, and
//! the flags that switch a harmonic's curves on and off.

use vstd::prelude::*;
use crate::engine::chart_type::ChartType;
use crate::engine::curves::{fill_constant, fill_sine, is_sine_curve, sine_defined};
use crate::engine::shared_params::SharedParams;
use crate::params::harmonic::{CurveParam, HarmonicParam};

verus! {

impl<T> SharedParams<T> {
    /// The table of the domain `chart_type`.
    pub open spec fn table(&self, chart_type: ChartType) -> Seq<Vec<T>> {
        match chart_type {
            ChartType::Amp => self.amplitude_data@,
            ChartType::Phase => self.phase_data@,
        }
    }

    /// The enable flags of the domain `chart_type`.
    pub open spec fn enabled_flags(&self, chart_type: ChartType) -> Seq<bool> {
        match chart_type {
            ChartType::Amp => self.harmonic_ampl_enabled@,
            ChartType::Phase => self.harmonic_phase_enabled@,
        }
    }

    /// The number of buckets of the curve in row `harmonic_index` of the
    /// table of the domain `chart_type`; 0 if there is no such row.
    pub open spec fn curve_len(&self, harmonic_index: usize, chart_type: ChartType) -> nat {
        if harmonic_index < self.table(chart_type).len() {
            self.table(chart_type)[harmonic_index as int]@.len()
        } else {
            0
        }
    }

    /// Whether this store is `before` but for the table of the domain
    /// `chart_type`, the states of the buffers and the cancellation flag.
    pub open spec fn same_but_table_and_states(
        &self,
        before: &Self,
        chart_type: ChartType,
    ) -> bool {
        match chart_type {
            ChartType::Amp => *self == (SharedParams {
                amplitude_data: self.amplitude_data,
                buffer_states: self.buffer_states,
                computation_cancel: self.computation_cancel,
                ..*before
            }),
            ChartType::Phase => *self == (SharedParams {
                phase_data: self.phase_data,
                buffer_states: self.buffer_states,
                computation_cancel: self.computation_cancel,
                ..*before
            }),
        }
    }

    /// Whether this store is `before` after an edit of the curve in row
    /// `harmonic_index` of the table of the domain `chart_type`: the curve
    /// has kept its length, no other curve has changed, and every buffer is
    /// stale. Without such a row the two stores are equal.
    pub open spec fn is_curve_edit(
        &self,
        before: &Self,
        harmonic_index: usize,
        chart_type: ChartType,
    ) -> bool {
        if harmonic_index < before.table(chart_type).len() {
            &&& self.same_but_table_and_states(before, chart_type)
            &&& self.is_invalidated(before)
            &&& self.table(chart_type).len() == before.table(chart_type).len()
            &&& forall|h: int|
                0 <= h < before.table(chart_type).len() && h != harmonic_index
                    ==> #[trigger] self.table(chart_type)[h] == before.table(chart_type)[h]
            &&& self.curve_len(harmonic_index, chart_type) == before.curve_len(
                harmonic_index,
                chart_type,
            )
        } else {
            *self == *before
        }
    }

    /// Whether this store is `before` with the curve in row `harmonic_index`
    /// of the table of the domain `chart_type` set to `offset` in every
    /// bucket.
    pub open spec fn is_constant_fill(
        &self,
        before: &Self,
        harmonic_index: usize,
        offset: T,
        chart_type: ChartType,
    ) -> bool {
        &&& self.is_curve_edit(before, harmonic_index, chart_type)
        &&& harmonic_index < before.table(chart_type).len() ==> self.table(
            chart_type,
        )[harmonic_index as int]@ =~= Seq::new(
            before.curve_len(harmonic_index, chart_type),
            |i: int| offset,
        )
    }

    /// Whether this store is `before` with the curve in row `harmonic_index`
    /// of the table of the domain `chart_type` set, bucket by bucket, to
    /// what `sine_at` gives for the parameters `curve`.
    pub open spec fn is_sine_fill<F: Fn(T, T, T, usize) -> T>(
        &self,
        before: &Self,
        harmonic_index: usize,
        chart_type: ChartType,
        curve: CurveParam<T>,
        sine_at: F,
    ) -> bool {
        &&& self.is_curve_edit(before, harmonic_index, chart_type)
        &&& harmonic_index < before.table(chart_type).len() ==> is_sine_curve(
            self.table(chart_type)[harmonic_index as int]@,
            sine_at,
            curve.offset,
            curve.sine_amp,
            curve.sine_freq,
        )
    }

    /// Whether this store is `before` but for the enable flags of the domain
    /// `chart_type`, the states of the buffers and the cancellation flag.
    pub open spec fn same_but_flags_and_states(
        &self,
        before: &Self,
        chart_type: ChartType,
    ) -> bool {
        match chart_type {
            ChartType::Amp => *self == (SharedParams {
                harmonic_ampl_enabled: self.harmonic_ampl_enabled,
                buffer_states: self.buffer_states,
                computation_cancel: self.computation_cancel,
                ..*before
            }),
            ChartType::Phase => *self == (SharedParams {
                harmonic_phase_enabled: self.harmonic_phase_enabled,
                buffer_states: self.buffer_states,
                computation_cancel: self.computation_cancel,
                ..*before
            }),
        }
    }

    /// Whether setting the flag of row `harmonic_index` in the domain
    /// `chart_type` to `enabled` changes it.
    pub open spec fn enabling_changes(
        &self,
        harmonic_index: usize,
        chart_type: ChartType,
        enabled: bool,
    ) -> bool {
        &&& harmonic_index < self.enabled_flags(chart_type).len()
        &&& self.enabled_flags(chart_type)[harmonic_index as int] != enabled
    }

    /// Whether this store is `before` with the flag of row `harmonic_index`
    /// in the domain `chart_type` set to `enabled`: if that changed the
    /// flag, every buffer is stale and the computations under way are told
    /// to give up; if not, the two stores are equal.
    pub open spec fn is_enabling(
        &self,
        before: &Self,
        harmonic_index: usize,
        chart_type: ChartType,
        enabled: bool,
    ) -> bool {
        if before.enabling_changes(harmonic_index, chart_type, enabled) {
            &&& self.same_but_flags_and_states(before, chart_type)
            &&& self.enabled_flags(chart_type) =~= before.enabled_flags(chart_type).update(
                harmonic_index as int,
                enabled,
            )
            &&& self.is_invalidated(before)
        } else {
            *self == *before
        }
    }

    /// Switches the curve of the harmonic in row `harmonic_index` on or off
    /// in the domain `chart_type`, and tells whether that changed the flag.
    /// A change makes every buffer stale, as `mark_all_buffers_dirty` does.
    /// Nothing changes if there is no such row.
    pub fn set_harmonic_enabled(
        &mut self,
        harmonic_index: usize,
        chart_type: ChartType,
        enabled: bool,
    ) -> (changed: bool)
        ensures
            changed == old(self).enabling_changes(harmonic_index, chart_type, enabled),
            final(self).is_enabling(old(self), harmonic_index, chart_type, enabled),
            old(self).wf() ==> final(self).wf(),
    {
        let changed: bool = match chart_type {
            ChartType::Amp => {
                if harmonic_index < self.harmonic_ampl_enabled.len()
                    && self.harmonic_ampl_enabled[harmonic_index] != enabled {
                    self.harmonic_ampl_enabled.set(harmonic_index, enabled);
                    true
                } else {
                    false
                }
            },
            ChartType::Phase => {
                if harmonic_index < self.harmonic_phase_enabled.len()
                    && self.harmonic_phase_enabled[harmonic_index] != enabled {
                    self.harmonic_phase_enabled.set(harmonic_index, enabled);
                    true
                } else {
                    false
                }
            },
        };
        if changed {
            self.mark_all_buffers_dirty();
        }
        changed
    }
}

impl<T: Copy> SharedParams<T> {
    /// Overwrites the curve of the harmonic in row `harmonic_index` of the
    /// table of the domain `chart_type` with the constant `offset`, which
    /// makes every buffer stale, as `mark_all_buffers_dirty` does. Nothing
    /// changes if there is no such row.
    pub fn fill_constant_curve(&mut self, harmonic_index: usize, offset: T, chart_type: ChartType)
        ensures
            final(self).is_constant_fill(old(self), harmonic_index, offset, chart_type),
            old(self).wf() ==> final(self).wf(),
    {
        match chart_type {
            ChartType::Amp => {
                if harmonic_index < self.amplitude_data.len() {
                    fill_constant(&mut self.amplitude_data[harmonic_index], offset);
                    self.mark_all_buffers_dirty();
                }
            },
            ChartType::Phase => {
                if harmonic_index < self.phase_data.len() {
                    fill_constant(&mut self.phase_data[harmonic_index], offset);
                    self.mark_all_buffers_dirty();
                }
            },
        }
    }

    /// Overwrites the curve of the harmonic in row `harmonic_index` of the
    /// table of the domain `chart_type` with the sine that `harmonic`
    /// describes for that domain: bucket `i` becomes what `sine_at` gives
    /// for the curve's offset, sine amplitude and sine frequency at `i`.
    /// That makes every buffer stale, as `mark_all_buffers_dirty` does.
    /// Nothing changes if there is no such row.
    pub fn fill_sin_curve<F: Fn(T, T, T, usize) -> T>(
        &mut self,
        harmonic_index: usize,
        chart_type: ChartType,
        harmonic: &HarmonicParam<T>,
        sine_at: &F,
    )
        requires
            sine_defined(
                *sine_at,
                harmonic.curve_of(chart_type).offset,
                harmonic.curve_of(chart_type).sine_amp,
                harmonic.curve_of(chart_type).sine_freq,
                old(self).curve_len(harmonic_index, chart_type),
            ),
        ensures
            final(self).is_sine_fill(
                old(self),
                harmonic_index,
                chart_type,
                harmonic.curve_of(chart_type),
                *sine_at,
            ),
            old(self).wf() ==> final(self).wf(),
    {
        let curve: CurveParam<T> = harmonic.curve(chart_type);
        match chart_type {
            ChartType::Amp => {
                if harmonic_index < self.amplitude_data.len() {
                    fill_sine(
                        &mut self.amplitude_data[harmonic_index],
                        curve.offset,
                        curve.sine_amp,
                        curve.sine_freq,
                        sine_at,
                    );
                    self.mark_all_buffers_dirty();
                }
            },
            ChartType::Phase => {
                if harmonic_index < self.phase_data.len() {
                    fill_sine(
                        &mut self.phase_data[harmonic_index],
                        curve.offset,
                        curve.sine_amp,
                        curve.sine_freq,
                        sine_at,
                    );
                    self.mark_all_buffers_dirty();
                }
            },
        }
    }
}

} // verus!
