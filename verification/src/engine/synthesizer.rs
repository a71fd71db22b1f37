//! The per-key waveform synthesizer: which harmonics make up the waveform of
//! a key, and how many samples one cycle of it has.
//!
//! The waveform of a key is a sum of sines, one for each harmonic that the
//! key can carry without aliasing. What the synthesizer decides is laid down
//! in a [`SynthesisPlan`]; the value of each sample is left to a kernel that
//! the caller supplies, so that the engine works for any type of sample.

use vstd::prelude::*;
use crate::constants::{max_harmonic_for_key, NUM_KEYS};
use crate::engine::shared_params::{is_default_value, SharedParams};
use crate::tuning::{aliasing_cap, is_rounded_period};

verus! {

/// One harmonic of the sum that makes up a waveform.
#[derive(Debug, Clone, Copy, PartialEq, Eq, Structural)]
pub struct HarmonicTerm {
    /// The harmonic number: the multiple of the fundamental frequency at
    /// which the harmonic sounds. Harmonic `number` is shaped by row
    /// `number - 1` of the tables.
    pub number: usize,
    /// Whether the harmonic sounds with the amplitude of its curve. If not,
    /// its amplitude is 0.
    pub amplitude_enabled: bool,
    /// Whether the harmonic is shifted by the phase of its curve. If not,
    /// its phase is 0.
    pub phase_enabled: bool,
}

/// What the synthesizer sums for one key.
#[derive(Debug, Clone)]
pub struct SynthesisPlan {
    /// Number of samples in one cycle of the waveform.
    pub period: usize,
    /// The harmonics to sum, lowest first.
    pub terms: Vec<HarmonicTerm>,
    /// Whether the waveform is to be scaled into the unit range once it has
    /// been summed.
    pub normalize: bool,
}

/// Whether the flag of row `row` is there and set.
pub open spec fn flag_set(flags: Seq<bool>, row: int) -> bool {
    0 <= row < flags.len() && flags[row]
}

/// Harmonic `number` with its two flags.
pub open spec fn term_of(
    amplitude_enabled: Seq<bool>,
    phase_enabled: Seq<bool>,
    number: int,
) -> HarmonicTerm {
    HarmonicTerm {
        number: number as usize,
        amplitude_enabled: flag_set(amplitude_enabled, number - 1),
        phase_enabled: flag_set(phase_enabled, number - 1),
    }
}

/// The harmonics from 1 to `max_harmonic`, lowest first, each with its two
/// flags.
pub open spec fn harmonics_up_to(
    amplitude_enabled: Seq<bool>,
    phase_enabled: Seq<bool>,
    max_harmonic: nat,
) -> Seq<HarmonicTerm> {
    Seq::new(max_harmonic, |i: int| term_of(amplitude_enabled, phase_enabled, i + 1))
}

/// Whether a harmonic takes part in the sum: it is enabled in at least one
/// of the two domains.
pub open spec fn takes_part(term: HarmonicTerm) -> bool {
    term.amplitude_enabled || term.phase_enabled
}

/// The harmonics from 1 to `max_harmonic` that take part in the sum, lowest
/// first.
pub open spec fn planned_terms(
    amplitude_enabled: Seq<bool>,
    phase_enabled: Seq<bool>,
    max_harmonic: nat,
) -> Seq<HarmonicTerm> {
    harmonics_up_to(amplitude_enabled, phase_enabled, max_harmonic).filter(
        |term: HarmonicTerm| takes_part(term),
    )
}

/// Whether no harmonic among `terms` sounds: the amplitude of each is 0.
pub open spec fn is_silent(terms: Seq<HarmonicTerm>) -> bool {
    forall|i: int| 0 <= i < terms.len() ==> !(#[trigger] terms[i]).amplitude_enabled
}

/// Up to no harmonic, nothing is planned; with one more harmonic, the plan
/// grows by that harmonic if it takes part.
pub proof fn lemma_planned_terms_grow(
    amplitude_enabled: Seq<bool>,
    phase_enabled: Seq<bool>,
    max_harmonic: nat,
)
    ensures
        planned_terms(amplitude_enabled, phase_enabled, max_harmonic + 1) == if takes_part(
            term_of(amplitude_enabled, phase_enabled, max_harmonic as int + 1),
        ) {
            planned_terms(amplitude_enabled, phase_enabled, max_harmonic).push(
                term_of(amplitude_enabled, phase_enabled, max_harmonic as int + 1),
            )
        } else {
            planned_terms(amplitude_enabled, phase_enabled, max_harmonic)
        },
        planned_terms(amplitude_enabled, phase_enabled, 0) == Seq::<HarmonicTerm>::empty(),
{
    let more = harmonics_up_to(amplitude_enabled, phase_enabled, max_harmonic + 1);
    let fewer = harmonics_up_to(amplitude_enabled, phase_enabled, max_harmonic);
    assert(more.drop_last() == fewer);
    reveal(Seq::filter);
}

/// With the amplitude of every harmonic disabled, no planned harmonic sounds.
pub proof fn lemma_disabled_amplitudes_are_silent(
    amplitude_enabled: Seq<bool>,
    phase_enabled: Seq<bool>,
    max_harmonic: nat,
)
    requires
        forall|row: int| 0 <= row < amplitude_enabled.len() ==> !amplitude_enabled[row],
    ensures
        is_silent(planned_terms(amplitude_enabled, phase_enabled, max_harmonic)),
    decreases max_harmonic,
{
    if max_harmonic > 0 {
        lemma_disabled_amplitudes_are_silent(
            amplitude_enabled,
            phase_enabled,
            (max_harmonic - 1) as nat,
        );
        lemma_planned_terms_grow(amplitude_enabled, phase_enabled, (max_harmonic - 1) as nat);
    }
}

impl SynthesisPlan {
    /// Whether `buffer` is one cycle of the planned waveform: it has one
    /// sample for each position of the period, each of them what `kernel`
    /// gives for the plan and the position; where no planned harmonic
    /// sounds, each sample is instead a default value of its type, which
    /// stands for silence.
    pub open spec fn renders<T: Default, K: Fn(&SynthesisPlan, usize) -> T>(
        &self,
        kernel: K,
        buffer: Seq<T>,
    ) -> bool {
        &&& buffer.len() == self.period
        &&& forall|position: int|
            0 <= position < buffer.len() ==> if is_silent(self.terms@) {
                is_default_value(#[trigger] buffer[position])
            } else {
                call_ensures(kernel, (self, position as usize), #[trigger] buffer[position])
            }
    }

    /// Whether no planned harmonic sounds.
    pub fn is_silent(&self) -> (silent: bool)
        ensures
            silent == is_silent(self.terms@),
    {
        let mut i: usize = 0;
        while i < self.terms.len()
            invariant
                i <= self.terms@.len(),
                forall|j: int| 0 <= j < i ==> !(#[trigger] self.terms@[j]).amplitude_enabled,
            decreases self.terms@.len() - i,
        {
            if self.terms[i].amplitude_enabled {
                return false;
            }
            i = i + 1;
        }
        true
    }

    /// One cycle of the planned waveform, sample by sample from `kernel`.
    /// Where no planned harmonic sounds, the kernel is not asked and the
    /// cycle is silent.
    pub fn render<T: Default, K: Fn(&SynthesisPlan, usize) -> T>(&self, kernel: &K) -> (buffer: Vec<
        T,
    >)
        requires
            forall|position: usize|
                position < self.period ==> call_requires(kernel, (self, position)),
        ensures
            self.renders(*kernel, buffer@),
    {
        let silent: bool = self.is_silent();
        let mut buffer: Vec<T> = Vec::with_capacity(self.period);
        let mut position: usize = 0;
        while position < self.period
            invariant
                position <= self.period,
                buffer@.len() == position,
                silent == is_silent(self.terms@),
                forall|p: usize| p < self.period ==> call_requires(kernel, (self, p)),
                forall|p: int|
                    0 <= p < position ==> if silent {
                        is_default_value(#[trigger] buffer@[p])
                    } else {
                        call_ensures(kernel, (self, p as usize), #[trigger] buffer@[p])
                    },
            decreases self.period - position,
        {
            let sample: T = if silent {
                T::default()
            } else {
                kernel(self, position)
            };
            buffer.push(sample);
            position = position + 1;
        }
        buffer
    }
}

impl<T> SharedParams<T> {
    /// The stored period of `key` in samples; 0 for a key that is not on the
    /// keyboard.
    pub open spec fn period_of(&self, key: usize) -> usize {
        if key < NUM_KEYS && key < self.piano_periods@.len() {
            self.piano_periods@[key as int] as usize
        } else {
            0
        }
    }

    /// The highest harmonic number that is summed for `key`: the number of
    /// harmonics that the tables hold or the aliasing cap of the key,
    /// whichever is less.
    pub open spec fn max_harmonic(&self, key: usize) -> nat {
        if self.num_harmonics() <= aliasing_cap(key as nat) {
            self.num_harmonics()
        } else {
            aliasing_cap(key as nat)
        }
    }

    /// Whether `plan` is the plan for `key`: one cycle has as many samples
    /// as the stored period of the key, the harmonics to sum are those up to
    /// the highest for the key that take part by their flags, and the
    /// waveform is to be normalized if the store says so.
    pub open spec fn plans(&self, key: usize, plan: &SynthesisPlan) -> bool {
        &&& plan.period == self.period_of(key)
        &&& plan.normalize == self.normalization_needed
        &&& plan.terms@ =~= planned_terms(
            self.harmonic_ampl_enabled@,
            self.harmonic_phase_enabled@,
            self.max_harmonic(key),
        )
    }

    /// The plan for the waveform of `key`. For a key that is not on the
    /// keyboard the plan is empty.
    pub fn synthesis_plan(&self, key: usize) -> (plan: SynthesisPlan)
        ensures
            self.plans(key, &plan),
            self.wf() && key < NUM_KEYS ==> is_rounded_period(key as nat, plan.period as nat),
            key >= NUM_KEYS ==> plan.period == 0 && plan.terms@.len() == 0,
    {
        let mut terms: Vec<HarmonicTerm> = Vec::new();
        let period: usize = if key < NUM_KEYS && key < self.piano_periods.len() {
            self.piano_periods[key] as usize
        } else {
            0
        };
        let cap: usize = max_harmonic_for_key(key);
        let max_harmonic: usize = if self.amplitude_data.len() <= cap {
            self.amplitude_data.len()
        } else {
            cap
        };
        let mut number: usize = 0;
        while number < max_harmonic
            invariant
                number <= max_harmonic,
                terms@ == planned_terms(
                    self.harmonic_ampl_enabled@,
                    self.harmonic_phase_enabled@,
                    number as nat,
                ),
            decreases max_harmonic - number,
        {
            let amplitude_enabled: bool = number < self.harmonic_ampl_enabled.len()
                && self.harmonic_ampl_enabled[number];
            let phase_enabled: bool = number < self.harmonic_phase_enabled.len()
                && self.harmonic_phase_enabled[number];
            proof {
                lemma_planned_terms_grow(
                    self.harmonic_ampl_enabled@,
                    self.harmonic_phase_enabled@,
                    number as nat,
                );
            }
            number = number + 1;
            if amplitude_enabled || phase_enabled {
                terms.push(HarmonicTerm { number, amplitude_enabled, phase_enabled });
            }
        }
        SynthesisPlan { period, terms, normalize: self.normalization_needed }
    }
}

impl<T: Default> SharedParams<T> {
    /// One cycle of the waveform of `key`: the rendering of the plan for the
    /// key. It has as many samples as the stored period of the key, and none
    /// for a key that is not on the keyboard. With the amplitude of every
    /// harmonic disabled it is silent.
    pub fn synthesize<K: Fn(&SynthesisPlan, usize) -> T>(&self, key: usize, kernel: &K) -> (buffer:
        Vec<T>)
        requires
            forall|plan: SynthesisPlan, position: usize|
                self.plans(key, &plan) && position < plan.period ==> call_requires(
                    kernel,
                    (&plan, position),
                ),
        ensures
            exists|plan: SynthesisPlan| self.plans(key, &plan) && plan.renders(*kernel, buffer@),
            buffer@.len() == self.period_of(key),
            self.wf() && key < NUM_KEYS ==> is_rounded_period(key as nat, buffer@.len()),
            key >= NUM_KEYS ==> buffer@.len() == 0,
            (forall|row: int|
                0 <= row < self.harmonic_ampl_enabled@.len() ==> !self.harmonic_ampl_enabled@[row])
                ==> forall|position: int|
                0 <= position < buffer@.len() ==> is_default_value(#[trigger] buffer@[position]),
    {
        let plan: SynthesisPlan = self.synthesis_plan(key);
        proof {
            if forall|row: int|
                0 <= row < self.harmonic_ampl_enabled@.len() ==> !self.harmonic_ampl_enabled@[row] {
                lemma_disabled_amplitudes_are_silent(
                    self.harmonic_ampl_enabled@,
                    self.harmonic_phase_enabled@,
                    self.max_harmonic(key),
                );
            }
        }
        plan.render(kernel)
    }
}

} // verus!
