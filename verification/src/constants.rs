//! Fixed sizes of the engine and the legal ranges of its parameters.

use vstd::prelude::*;
use crate::tuning::{aliasing_cap, half_sample_wavelength, lemma_highest_harmonic_of_wavelength};

verus! {

/// Number of harmonics that a key's waveform can sum.
pub const NUM_HARMONICS: usize = 64;

/// Number of piano keys.
pub const NUM_KEYS: usize = 88;

/// Number of buckets of a curve unless configured otherwise.
pub const NUM_OF_BUCKETS_DEFAULT: usize = 70;

/// Smallest configurable number of buckets.
pub const NUM_OF_BUCKETS_MIN: i32 = 30;

/// Largest configurable number of buckets.
pub const NUM_OF_BUCKETS_MAX: i32 = 2000;

/// Number of samples over which a voice fades in or out.
pub const FADE_DURATION: usize = 128;

/// Samples per second.
pub const SAMPLE_RATE: u32 = 44100;

/// Highest frequency in hertz that the sample rate can carry.
pub const NYQUIST_FREQUENCY: u32 = SAMPLE_RATE / 2;

/// The number of buckets nearest to `requested` that can be configured.
pub open spec fn clamped_bucket_count(requested: int) -> int {
    if requested < NUM_OF_BUCKETS_MIN {
        NUM_OF_BUCKETS_MIN as int
    } else if requested > NUM_OF_BUCKETS_MAX {
        NUM_OF_BUCKETS_MAX as int
    } else {
        requested
    }
}

/// The number of buckets to configure when `requested` are asked for: a
/// request below the minimum gives the minimum, one above the maximum the
/// maximum.
pub fn clamp_bucket_count(requested: i32) -> (buckets: usize)
    ensures
        buckets == clamped_bucket_count(requested as int),
{
    if requested < NUM_OF_BUCKETS_MIN {
        NUM_OF_BUCKETS_MIN as usize
    } else if requested > NUM_OF_BUCKETS_MAX {
        NUM_OF_BUCKETS_MAX as usize
    } else {
        requested as usize
    }
}

/// The number of harmonics of `key` that can be summed without aliasing: the
/// highest harmonic number, of the `NUM_HARMONICS` the engine has, whose
/// frequency stays within the Nyquist frequency. A key that is not on the
/// keyboard has none.
pub fn max_harmonic_for_key(key: usize) -> (max_harmonic: usize)
    ensures
        max_harmonic == aliasing_cap(key as nat),
        max_harmonic <= NUM_HARMONICS,
{
    if key >= NUM_KEYS {
        return 0;
    }
    let count: u32 = half_sample_wavelength(key);
    let below_nyquist: usize = (count / 4) as usize;
    proof {
        lemma_highest_harmonic_of_wavelength(key as nat, count as nat, NUM_HARMONICS as nat);
    }
    if below_nyquist < NUM_HARMONICS {
        below_nyquist
    } else {
        NUM_HARMONICS
    }
}

} // verus!
