use additive_synth::constants::NUM_KEYS;
use additive_synth::engine::shared_params::SharedParams;
use additive_synth::engine::synthesizer::{HarmonicTerm, SynthesisPlan};

fn kernel(plan: &SynthesisPlan, position: usize) -> f32 {
    let mut sum: f32 = 0.0;
    for term in plan.terms.iter() {
        let amplitude: f32 = if term.amplitude_enabled { 1.0 / term.number as f32 } else { 0.0 };
        let angle =
            2.0 * std::f32::consts::PI * term.number as f32 * position as f32 / plan.period as f32;
        sum += amplitude * angle.sin();
    }
    sum
}

fn loud(_plan: &SynthesisPlan, _position: usize) -> f32 {
    1.0
}

#[test]
fn plan_of_the_lowest_key_sums_every_harmonic() {
    let params: SharedParams<f32> = SharedParams::new(64, 70);
    let plan = params.synthesis_plan(0);
    assert_eq!(plan.period, 1604);
    assert_eq!(plan.terms.len(), 64);
    for (i, term) in plan.terms.iter().enumerate() {
        assert_eq!(
            *term,
            HarmonicTerm { number: i + 1, amplitude_enabled: true, phase_enabled: true }
        );
    }
}

#[test]
fn plan_is_capped_by_the_key_and_by_the_tables() {
    let params: SharedParams<f32> = SharedParams::new(64, 70);
    assert_eq!(params.synthesis_plan(48).terms.len(), 50);
    assert_eq!(params.synthesis_plan(48).period, 100);
    assert_eq!(params.synthesis_plan(87).terms.len(), 5);
    assert_eq!(params.synthesis_plan(87).period, 11);

    let few: SharedParams<f32> = SharedParams::new(8, 70);
    assert_eq!(few.synthesis_plan(0).terms.len(), 8);
    assert_eq!(few.synthesis_plan(87).terms.len(), 5);
}

#[test]
fn plan_off_the_keyboard_is_empty() {
    let params: SharedParams<f32> = SharedParams::new(64, 70);
    for key in [NUM_KEYS, NUM_KEYS + 1, usize::MAX] {
        let plan = params.synthesis_plan(key);
        assert_eq!(plan.period, 0);
        assert!(plan.terms.is_empty());
        assert!(plan.render(&loud).is_empty());
        assert!(params.synthesize(key, &loud).is_empty());
    }
}

#[test]
fn plan_asks_for_normalization_when_the_store_does() {
    let mut params: SharedParams<f32> = SharedParams::new(64, 70);
    assert!(!params.synthesis_plan(0).normalize);
    params.normalization_needed = true;
    assert!(params.synthesis_plan(0).normalize);
    assert!(params.synthesis_plan(NUM_KEYS).normalize);
}

#[test]
fn plan_follows_the_enable_flags() {
    let mut params: SharedParams<f32> = SharedParams::new(6, 70);
    params.harmonic_ampl_enabled = vec![true, false, false, true, false, true];
    params.harmonic_phase_enabled = vec![true, true, false, false, false, true];
    let plan = params.synthesis_plan(0);
    assert_eq!(
        plan.terms,
        vec![
            HarmonicTerm { number: 1, amplitude_enabled: true, phase_enabled: true },
            HarmonicTerm { number: 2, amplitude_enabled: false, phase_enabled: true },
            HarmonicTerm { number: 4, amplitude_enabled: true, phase_enabled: false },
            HarmonicTerm { number: 6, amplitude_enabled: true, phase_enabled: true },
        ]
    );
    assert!(!plan.is_silent());
}

#[test]
fn synthesized_buffer_is_one_period_long() {
    let params: SharedParams<f32> = SharedParams::new(64, 70);
    for key in 0..NUM_KEYS {
        let buffer = params.synthesize(key, &kernel);
        assert_eq!(buffer.len(), params.piano_periods[key] as usize, "key {}", key);
    }
    assert_eq!(params.synthesize(0, &kernel).len(), 1604);
    assert_eq!(params.synthesize(87, &kernel).len(), 11);
}

#[test]
fn synthesized_samples_come_from_the_kernel() {
    let params: SharedParams<f32> = SharedParams::new(64, 70);
    let plan = params.synthesis_plan(60);
    let buffer = params.synthesize(60, &kernel);
    assert_eq!(buffer.len(), plan.period);
    for (position, sample) in buffer.iter().enumerate() {
        assert_eq!(*sample, kernel(&plan, position));
    }
    assert_eq!(plan.render(&kernel), buffer);
    assert!(buffer.iter().any(|&sample| sample != 0.0));
}

#[test]
fn disabled_amplitudes_give_silence_for_every_key() {
    let mut params: SharedParams<f32> = SharedParams::new(64, 70);
    for flag in params.harmonic_ampl_enabled.iter_mut() {
        *flag = false;
    }
    for key in 0..NUM_KEYS {
        let plan = params.synthesis_plan(key);
        assert!(plan.is_silent());
        assert!(!plan.terms.is_empty());
        let buffer = params.synthesize(key, &loud);
        assert_eq!(buffer.len(), plan.period);
        assert!(buffer.iter().all(|&sample| sample == 0.0), "key {}", key);
    }
}

#[test]
fn disabled_harmonics_are_left_out() {
    let mut params: SharedParams<f32> = SharedParams::new(64, 70);
    for flag in params.harmonic_ampl_enabled.iter_mut() {
        *flag = false;
    }
    for flag in params.harmonic_phase_enabled.iter_mut() {
        *flag = false;
    }
    let plan = params.synthesis_plan(0);
    assert!(plan.terms.is_empty());
    assert!(plan.is_silent());
    assert_eq!(plan.render(&loud), vec![0.0; 1604]);
}
