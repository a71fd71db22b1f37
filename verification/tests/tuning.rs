use additive_synth::constants::{
    clamp_bucket_count, max_harmonic_for_key, NUM_HARMONICS, NUM_KEYS, NYQUIST_FREQUENCY,
    SAMPLE_RATE,
};
use additive_synth::tuning::{
    half_sample_wavelength, piano_period, KEYS_PER_OCTAVE, LOWEST_OCTAVE_WAVELENGTHS,
};

fn fundamental(key: usize) -> f64 {
    27.5 * 2f64.powf(key as f64 / 12.0)
}

#[test]
fn piano_period_is_the_rounded_quotient_for_every_key() {
    for key in 0..NUM_KEYS {
        let expected = (SAMPLE_RATE as f64 / fundamental(key)).round() as u32;
        assert_eq!(piano_period(key), expected, "key {}", key);
    }
}

#[test]
fn piano_period_of_chosen_keys() {
    assert_eq!(piano_period(0), 1604);
    assert_eq!(piano_period(1), 1514);
    assert_eq!(piano_period(12), 802);
    assert_eq!(piano_period(48), 100);
    assert_eq!(piano_period(86), 11);
    assert_eq!(piano_period(87), 11);
}

#[test]
fn piano_period_halves_with_each_octave() {
    for key in 0..NUM_KEYS - KEYS_PER_OCTAVE {
        let lower = piano_period(key);
        let upper = piano_period(key + KEYS_PER_OCTAVE);
        assert!(19 * upper < 10 * lower && 10 * lower < 21 * upper, "key {}", key);
    }
}

#[test]
fn half_sample_wavelength_is_the_floor_of_twice_the_quotient() {
    for key in 0..NUM_KEYS {
        let expected = (2.0 * SAMPLE_RATE as f64 / fundamental(key)).floor() as u32;
        assert_eq!(half_sample_wavelength(key), expected, "key {}", key);
    }
    assert_eq!(half_sample_wavelength(0), 3207);
    assert_eq!(half_sample_wavelength(87), 21);
}

#[test]
fn lowest_octave_table_is_exact() {
    assert_eq!(LOWEST_OCTAVE_WAVELENGTHS.len(), KEYS_PER_OCTAVE);
    for semitone in 0..KEYS_PER_OCTAVE {
        let expected = (2.0 * SAMPLE_RATE as f64 / fundamental(semitone)).floor() as u32;
        assert_eq!(LOWEST_OCTAVE_WAVELENGTHS[semitone], expected);
    }
}

#[test]
fn max_harmonic_is_the_floor_of_the_nyquist_quotient_capped() {
    for key in 0..NUM_KEYS {
        let below = (NYQUIST_FREQUENCY as f64 / fundamental(key)).floor() as usize;
        assert_eq!(max_harmonic_for_key(key), below.min(NUM_HARMONICS), "key {}", key);
    }
}

#[test]
fn max_harmonic_of_chosen_keys() {
    assert_eq!(max_harmonic_for_key(0), 64);
    assert_eq!(max_harmonic_for_key(43), 64);
    assert_eq!(max_harmonic_for_key(44), 63);
    assert_eq!(max_harmonic_for_key(48), 50);
    assert_eq!(max_harmonic_for_key(87), 5);
}

#[test]
fn max_harmonic_never_grows_with_the_key() {
    for key in 0..NUM_KEYS + 12 {
        assert!(max_harmonic_for_key(key + 1) <= max_harmonic_for_key(key), "key {}", key);
    }
}

#[test]
fn max_harmonic_is_zero_off_the_keyboard() {
    assert_eq!(max_harmonic_for_key(88), 0);
    assert_eq!(max_harmonic_for_key(89), 0);
    assert_eq!(max_harmonic_for_key(1000), 0);
    assert_eq!(max_harmonic_for_key(usize::MAX), 0);
}

#[test]
fn bucket_count_is_clamped_to_its_range() {
    assert_eq!(clamp_bucket_count(70), 70);
    assert_eq!(clamp_bucket_count(30), 30);
    assert_eq!(clamp_bucket_count(2000), 2000);
    assert_eq!(clamp_bucket_count(29), 30);
    assert_eq!(clamp_bucket_count(2001), 2000);
    assert_eq!(clamp_bucket_count(0), 30);
    assert_eq!(clamp_bucket_count(-5), 30);
    assert_eq!(clamp_bucket_count(i32::MIN), 30);
    assert_eq!(clamp_bucket_count(i32::MAX), 2000);
}
