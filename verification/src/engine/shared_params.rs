//! The engine's store: the harmonic tables, the per-key waveform buffers and
//! the state machine that tracks which buffers are stale.

use vstd::prelude::*;
use crate::constants::{FADE_DURATION, NUM_KEYS};
use crate::tuning::{is_rounded_period, piano_period};
use crate::voice::Voice;

verus! {

/// Whether a key's waveform buffer can be played as it is.
#[derive(Debug, Clone, Copy, PartialEq, Eq, Structural)]
pub enum BufferState {
    /// The buffer matches the harmonic tables.
    Clean,
    /// The buffer is stale or absent and waits to be computed.
    Dirty,
    /// A computation of the buffer is under way.
    Computing,
}

/// Everything the editor, the background computation and the audio callback
/// share.
#[derive(Clone)]
pub struct SharedParams<T> {
    /// Amplitude of each harmonic in each bucket.
    pub amplitude_data: Vec<Vec<T>>,
    /// The amplitudes, scaled for display.
    pub amplitude_data_normalized: Vec<Vec<T>>,
    /// Phase of each harmonic in each bucket.
    pub phase_data: Vec<Vec<T>>,
    /// The sounding voice of each key, if any.
    pub voices: Vec<Option<Voice<T>>>,
    /// The waveform that the editor shows.
    pub assembled_sound_plotted: Vec<T>,
    /// Samples in one cycle of each key.
    pub piano_periods: Vec<u32>,
    /// Whether computed waveforms are to be scaled into the unit range.
    pub normalization_needed: bool,
    /// Whether each harmonic's amplitude curve takes part.
    pub harmonic_ampl_enabled: Vec<bool>,
    /// Whether each harmonic's phase curve takes part.
    pub harmonic_phase_enabled: Vec<bool>,
    /// Number of samples over which a voice fades in or out.
    pub fade_duration: usize,
    /// One cycle of each key's waveform, once it has been computed.
    pub key_buffers: Vec<Option<Vec<T>>>,
    /// State of each key's buffer.
    pub buffer_states: Vec<BufferState>,
    /// Tells computations under way to give up.
    pub computation_cancel: bool,
    /// Tells the editor to reset its view of the chart.
    pub should_reset_chart_view: bool,
}

/// Whether `grid` has `harmonics` rows of `buckets` values each.
pub open spec fn is_grid<T>(grid: Seq<Vec<T>>, harmonics: nat, buckets: nat) -> bool {
    &&& grid.len() == harmonics
    &&& forall|h: int| 0 <= h < harmonics ==> (#[trigger] grid[h]).len() == buckets
}

/// Whether `value` is a default value of its type: what `T::default()` may
/// return. It stands for zero.
pub open spec fn is_default_value<T: Default>(value: T) -> bool {
    call_ensures(T::default, (), value)
}

/// Whether every value of `grid` is a default value of its type.
pub open spec fn is_default_grid<T: Default>(grid: Seq<Vec<T>>) -> bool {
    forall|h: int, b: int|
        0 <= h < grid.len() && 0 <= b < grid[h].len() ==> is_default_value(#[trigger] grid[h]@[b])
}

/// Whether `periods` holds the rounded period of each key of the keyboard.
pub open spec fn is_piano_period_table(periods: Seq<u32>) -> bool {
    &&& periods.len() == NUM_KEYS
    &&& forall|key: int|
        0 <= key < NUM_KEYS ==> is_rounded_period(key as nat, #[trigger] periods[key] as nat)
}

/// A table of `harmonics` rows of `buckets` default values each.
fn default_grid<T: Default>(harmonics: usize, buckets: usize) -> (grid: Vec<Vec<T>>)
    ensures
        is_grid(grid@, harmonics as nat, buckets as nat),
        is_default_grid(grid@),
{
    let mut grid: Vec<Vec<T>> = Vec::new();
    let mut h: usize = 0;
    while h < harmonics
        invariant
            h <= harmonics,
            is_grid(grid@, h as nat, buckets as nat),
            is_default_grid(grid@),
        decreases harmonics - h,
    {
        let mut row: Vec<T> = Vec::new();
        let mut b: usize = 0;
        while b < buckets
            invariant
                b <= buckets,
                row@.len() == b,
                forall|i: int| 0 <= i < b ==> is_default_value(#[trigger] row@[i]),
            decreases buckets - b,
        {
            row.push(T::default());
            b = b + 1;
        }
        grid.push(row);
        h = h + 1;
    }
    grid
}

/// A vector of `len` copies of `value`.
fn filled<V: Copy>(len: usize, value: V) -> (items: Vec<V>)
    ensures
        items@ == Seq::new(len as nat, |i: int| value),
{
    let mut items: Vec<V> = Vec::new();
    let mut i: usize = 0;
    while i < len
        invariant
            i <= len,
            items@ == Seq::new(i as nat, |j: int| value),
        decreases len - i,
    {
        items.push(value);
        i = i + 1;
    }
    items
}

/// A vector of `len` empty slots.
fn empty_slots<V>(len: usize) -> (slots: Vec<Option<V>>)
    ensures
        slots@ == Seq::new(len as nat, |i: int| None::<V>),
{
    let mut slots: Vec<Option<V>> = Vec::new();
    let mut i: usize = 0;
    while i < len
        invariant
            i <= len,
            slots@ == Seq::new(i as nat, |j: int| None::<V>),
        decreases len - i,
    {
        slots.push(None);
        i = i + 1;
    }
    slots
}

impl<T> SharedParams<T> {
    /// Number of harmonics that the tables were made for.
    pub open spec fn num_harmonics(&self) -> nat {
        self.amplitude_data@.len()
    }

    /// Number of buckets of each curve.
    pub open spec fn num_buckets(&self) -> nat {
        if self.amplitude_data@.len() > 0 {
            self.amplitude_data@[0]@.len()
        } else {
            0
        }
    }

    /// Whether the store is of one piece: the three tables have the same
    /// shape, with rows of equal length; each harmonic has its two flags;
    /// each key has its period, its voice slot, its buffer slot and its
    /// buffer state; and a key whose state is `Clean` has a buffer.
    pub open spec fn wf(&self) -> bool {
        &&& is_grid(self.amplitude_data@, self.num_harmonics(), self.num_buckets())
        &&& is_grid(self.amplitude_data_normalized@, self.num_harmonics(), self.num_buckets())
        &&& is_grid(self.phase_data@, self.num_harmonics(), self.num_buckets())
        &&& self.harmonic_ampl_enabled@.len() == self.num_harmonics()
        &&& self.harmonic_phase_enabled@.len() == self.num_harmonics()
        &&& is_piano_period_table(self.piano_periods@)
        &&& self.voices@.len() == NUM_KEYS
        &&& self.key_buffers@.len() == NUM_KEYS
        &&& self.buffer_states@.len() == NUM_KEYS
        &&& forall|key: int|
            0 <= key < NUM_KEYS && #[trigger] self.buffer_states@[key] == BufferState::Clean
                ==> self.key_buffers@[key].is_some()
    }

    /// Whether this store is `before` but for the states of the buffers and
    /// the cancellation flag.
    pub open spec fn same_but_states_and_cancel(&self, before: &Self) -> bool {
        *self == (SharedParams {
            buffer_states: self.buffer_states,
            computation_cancel: self.computation_cancel,
            ..*before
        })
    }

    /// Whether every buffer that `before` has is stale in this store, and
    /// the computations under way are told to give up.
    pub open spec fn is_invalidated(&self, before: &Self) -> bool {
        &&& self.buffer_states@ =~= Seq::new(
            before.buffer_states@.len(),
            |key: int| BufferState::Dirty,
        )
        &&& self.computation_cancel
    }

    /// Whether `key` is a key of the keyboard that has a buffer state.
    pub open spec fn has_buffer_state(&self, key: usize) -> bool {
        key < NUM_KEYS && key < self.buffer_states@.len()
    }

    /// Whether this store is `before` but for the states of the buffers.
    pub open spec fn same_but_states(&self, before: &Self) -> bool {
        *self == (SharedParams { buffer_states: self.buffer_states, ..*before })
    }

    /// The period of every key of the keyboard, lowest key first.
    pub fn populate_piano_periods() -> (periods: Vec<u32>)
        ensures
            is_piano_period_table(periods@),
    {
        let mut piano_periods: Vec<u32> = Vec::with_capacity(NUM_KEYS);
        let mut key: usize = 0;
        while key < NUM_KEYS
            invariant
                key <= NUM_KEYS,
                piano_periods@.len() == key,
                forall|k: int|
                    0 <= k < key ==> is_rounded_period(
                        k as nat,
                        #[trigger] piano_periods@[k] as nat,
                    ),
            decreases NUM_KEYS - key,
        {
            let period: u32 = piano_period(key);
            piano_periods.push(period);
            key = key + 1;
        }
        piano_periods
    }

    /// Marks every buffer as stale and tells the computations under way to
    /// give up.
    pub fn mark_all_buffers_dirty(&mut self)
        ensures
            final(self).same_but_states_and_cancel(old(self)),
            final(self).is_invalidated(old(self)),
            old(self).wf() ==> final(self).wf(),
    {
        self.computation_cancel = true;
        let len: usize = self.buffer_states.len();
        let mut key: usize = 0;
        while key < len
            invariant
                key <= len,
                self.buffer_states@.len() == len,
                self.same_but_states_and_cancel(old(self)),
                self.computation_cancel,
                forall|k: int| 0 <= k < key ==> self.buffer_states@[k] == BufferState::Dirty,
            decreases len - key,
        {
            self.buffer_states.set(key, BufferState::Dirty);
            key = key + 1;
        }
    }

    /// Marks the buffer of `key` as stale. A key that is not on the keyboard
    /// has no buffer, and nothing changes.
    pub fn mark_buffer_dirty(&mut self, key: usize)
        ensures
            final(self).same_but_states(old(self)),
            final(self).buffer_states@ == if old(self).has_buffer_state(key) {
                old(self).buffer_states@.update(key as int, BufferState::Dirty)
            } else {
                old(self).buffer_states@
            },
            old(self).wf() ==> final(self).wf(),
    {
        if key < NUM_KEYS && key < self.buffer_states.len() {
            self.buffer_states.set(key, BufferState::Dirty);
        }
    }
}

impl<T: Default> SharedParams<T> {
    /// A store for `num_harmonics` harmonics with curves of `buckets`
    /// buckets. Every table value is a default value of its type; every
    /// harmonic is enabled in both domains; no key has a voice or a buffer,
    /// and every buffer is marked stale.
    pub fn new(num_harmonics: usize, buckets: usize) -> (params: Self)
        ensures
            params.wf(),
            is_grid(params.amplitude_data@, num_harmonics as nat, buckets as nat),
            is_grid(params.amplitude_data_normalized@, num_harmonics as nat, buckets as nat),
            is_grid(params.phase_data@, num_harmonics as nat, buckets as nat),
            is_default_grid(params.amplitude_data@),
            is_default_grid(params.amplitude_data_normalized@),
            is_default_grid(params.phase_data@),
            params.voices@ == Seq::new(NUM_KEYS as nat, |key: int| None::<Voice<T>>),
            params.assembled_sound_plotted@.len() == 0,
            is_piano_period_table(params.piano_periods@),
            !params.normalization_needed,
            params.harmonic_ampl_enabled@ == Seq::new(num_harmonics as nat, |h: int| true),
            params.harmonic_phase_enabled@ == Seq::new(num_harmonics as nat, |h: int| true),
            params.fade_duration == FADE_DURATION,
            params.key_buffers@ == Seq::new(NUM_KEYS as nat, |key: int| None::<Vec<T>>),
            params.buffer_states@ == Seq::new(NUM_KEYS as nat, |key: int| BufferState::Dirty),
            !params.computation_cancel,
            !params.should_reset_chart_view,
    {
        Self {
            amplitude_data: default_grid(num_harmonics, buckets),
            amplitude_data_normalized: default_grid(num_harmonics, buckets),
            phase_data: default_grid(num_harmonics, buckets),
            voices: empty_slots(NUM_KEYS),
            assembled_sound_plotted: Vec::new(),
            piano_periods: Self::populate_piano_periods(),
            normalization_needed: false,
            harmonic_ampl_enabled: filled(num_harmonics, true),
            harmonic_phase_enabled: filled(num_harmonics, true),
            fade_duration: FADE_DURATION,
            key_buffers: empty_slots(NUM_KEYS),
            buffer_states: filled(NUM_KEYS, BufferState::Dirty),
            computation_cancel: false,
            should_reset_chart_view: false,
        }
    }
}

} // verus!
