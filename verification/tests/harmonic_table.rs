use additive_synth::constants::NUM_KEYS;
use additive_synth::engine::chart_type::ChartType;
use additive_synth::engine::curves::{fill_constant, fill_sine};
use additive_synth::engine::shared_params::{BufferState, SharedParams};
use additive_synth::params::curve_type::CurveType;
use additive_synth::params::harmonic::HarmonicParam;

fn sine_at(offset: f32, sine_amp: f32, sine_freq: f32, bucket: usize) -> f32 {
    offset + sine_amp * (2.0 * std::f32::consts::PI * sine_freq * bucket as f32).sin()
}

fn harmonic() -> HarmonicParam<f32> {
    HarmonicParam {
        curve_offset_amp: 0.5,
        curve_offset_phase: 3.0,
        curve_type_amp: CurveType::Sine,
        curve_type_phase: CurveType::Constant,
        sine_curve_amp_amp: 0.25,
        sine_curve_freq_amp: 0.25,
        sine_curve_amp_phase: 1.5,
        sine_curve_freq_phase: 0.125,
    }
}

#[test]
fn fill_constant_sets_every_bucket() {
    let mut buckets: Vec<f32> = vec![0.1, 0.2, 0.3, 0.4, 0.5];
    fill_constant(&mut buckets, 0.75);
    assert_eq!(buckets, vec![0.75; 5]);

    let mut none: Vec<f32> = Vec::new();
    fill_constant(&mut none, 0.75);
    assert!(none.is_empty());
}

#[test]
fn fill_sine_sets_each_bucket_to_the_sine_at_it() {
    let mut buckets: Vec<f32> = vec![9.0; 8];
    fill_sine(&mut buckets, 0.5, 0.25, 0.25, &sine_at);
    assert_eq!(buckets.len(), 8);
    for (i, value) in buckets.iter().enumerate() {
        assert_eq!(*value, sine_at(0.5, 0.25, 0.25, i));
    }
    // A quarter of a cycle per bucket: offset, crest, offset, trough.
    assert_eq!(buckets[0], 0.5);
    assert!((buckets[1] - 0.75).abs() < 1e-6);
    assert!((buckets[2] - 0.5).abs() < 1e-6);
    assert!((buckets[3] - 0.25).abs() < 1e-6);
}

#[test]
fn fill_constant_curve_overwrites_one_row_of_one_table() {
    let mut params: SharedParams<f32> = SharedParams::new(4, 30);
    for state in params.buffer_states.iter_mut() {
        *state = BufferState::Clean;
    }
    params.fill_constant_curve(2, 0.6, ChartType::Amp);
    for h in 0..4 {
        let expected: f32 = if h == 2 { 0.6 } else { 0.0 };
        assert_eq!(params.amplitude_data[h], vec![expected; 30]);
        assert_eq!(params.phase_data[h], vec![0.0; 30]);
        assert_eq!(params.amplitude_data_normalized[h], vec![0.0; 30]);
    }
    params.fill_constant_curve(1, 3.0, ChartType::Phase);
    assert_eq!(params.phase_data[1], vec![3.0; 30]);
    assert_eq!(params.phase_data[2], vec![0.0; 30]);
    assert_eq!(params.amplitude_data[1], vec![0.0; 30]);
    // The fill makes every buffer stale and leaves the flags as they were.
    assert_eq!(params.buffer_states, vec![BufferState::Dirty; NUM_KEYS]);
    assert!(params.computation_cancel);
    assert_eq!(params.harmonic_ampl_enabled, vec![true; 4]);
    assert_eq!(params.harmonic_phase_enabled, vec![true; 4]);
}

#[test]
fn fill_constant_curve_without_such_a_row_changes_nothing() {
    let mut params: SharedParams<f32> = SharedParams::new(4, 30);
    for state in params.buffer_states.iter_mut() {
        *state = BufferState::Clean;
    }
    params.fill_constant_curve(4, 0.6, ChartType::Amp);
    params.fill_constant_curve(usize::MAX, 0.6, ChartType::Phase);
    for h in 0..4 {
        assert_eq!(params.amplitude_data[h], vec![0.0; 30]);
        assert_eq!(params.phase_data[h], vec![0.0; 30]);
    }
    assert_eq!(params.buffer_states, vec![BufferState::Clean; NUM_KEYS]);
    assert!(!params.computation_cancel);
}

#[test]
fn fill_sin_curve_uses_the_parameters_of_the_domain() {
    let mut params: SharedParams<f32> = SharedParams::new(4, 30);
    for state in params.buffer_states.iter_mut() {
        *state = BufferState::Clean;
    }
    params.fill_sin_curve(4, ChartType::Amp, &harmonic(), &sine_at);
    assert_eq!(params.buffer_states, vec![BufferState::Clean; NUM_KEYS]);
    assert!(!params.computation_cancel);
    params.fill_sin_curve(3, ChartType::Amp, &harmonic(), &sine_at);
    assert_eq!(params.buffer_states, vec![BufferState::Dirty; NUM_KEYS]);
    assert!(params.computation_cancel);
    for i in 0..30 {
        assert_eq!(params.amplitude_data[3][i], sine_at(0.5, 0.25, 0.25, i));
    }
    assert_eq!(params.amplitude_data[2], vec![0.0; 30]);
    assert_eq!(params.phase_data[3], vec![0.0; 30]);

    params.fill_sin_curve(0, ChartType::Phase, &harmonic(), &sine_at);
    for i in 0..30 {
        assert_eq!(params.phase_data[0][i], sine_at(3.0, 1.5, 0.125, i));
    }
    assert_eq!(params.amplitude_data[0], vec![0.0; 30]);

    params.fill_sin_curve(4, ChartType::Phase, &harmonic(), &sine_at);
    assert_eq!(params.phase_data[1], vec![0.0; 30]);
}

#[test]
fn harmonic_param_gives_the_curve_of_each_domain() {
    let amp = harmonic().curve(ChartType::Amp);
    assert_eq!(amp.offset, 0.5);
    assert_eq!(amp.sine_amp, 0.25);
    assert_eq!(amp.sine_freq, 0.25);
    assert_eq!(amp.curve_type, CurveType::Sine);
    let phase = harmonic().curve(ChartType::Phase);
    assert_eq!(phase.offset, 3.0);
    assert_eq!(phase.sine_amp, 1.5);
    assert_eq!(phase.sine_freq, 0.125);
    assert_eq!(phase.curve_type, CurveType::Constant);
}

#[test]
fn set_harmonic_enabled_invalidates_on_change_only() {
    let mut params: SharedParams<f32> = SharedParams::new(4, 30);
    for state in params.buffer_states.iter_mut() {
        *state = BufferState::Clean;
    }
    // Already enabled: nothing happens.
    assert!(!params.set_harmonic_enabled(1, ChartType::Amp, true));
    assert!(params.buffer_states.iter().all(|&s| s == BufferState::Clean));
    assert!(!params.computation_cancel);
    // No such row: nothing happens.
    assert!(!params.set_harmonic_enabled(4, ChartType::Amp, false));
    assert!(params.buffer_states.iter().all(|&s| s == BufferState::Clean));
    // A change.
    assert!(params.set_harmonic_enabled(1, ChartType::Amp, false));
    assert_eq!(params.harmonic_ampl_enabled, vec![true, false, true, true]);
    assert_eq!(params.harmonic_phase_enabled, vec![true; 4]);
    assert!(params.buffer_states.iter().all(|&s| s == BufferState::Dirty));
    assert!(params.computation_cancel);

    assert!(params.set_harmonic_enabled(3, ChartType::Phase, false));
    assert_eq!(params.harmonic_phase_enabled, vec![true, true, true, false]);
    assert_eq!(params.harmonic_ampl_enabled, vec![true, false, true, true]);
}
