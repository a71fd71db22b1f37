//! Equal-tempered tuning of the keyboard in exact integer arithmetic.
//!
//! Key `k` sounds at `27.5 * 2^(k/12)` hertz, which is irrational for most
//! keys. Every question the engine asks of that frequency has the form
//! "are `n` cycles per second of this key at most `limit` hertz?". Doubling
//! both sides and raising them to the twelfth power turns the question into a
//! comparison of integers, which is how [`multiple_within`] states it.

use vstd::prelude::*;
use vstd::arithmetic::power::*;
use vstd::arithmetic::power2::*;
use vstd::bits::lemma_u32_shr_is_div;
use crate::constants::{NUM_HARMONICS, NUM_KEYS, NYQUIST_FREQUENCY, SAMPLE_RATE};

verus! {

/// Keys per octave: twelve keys up, the frequency doubles.
pub const KEYS_PER_OCTAVE: usize = 12;

/// Frequency of the lowest key in half hertz (27.5 Hz).
pub const LOWEST_KEY_HALF_HERTZ: u32 = 55;

/// Whether `n` times the fundamental frequency of `key` is at most `limit`
/// hertz: `n * 27.5 * 2^(key/12) <= limit`.
///
/// Doubled, the left side is `55 * n * 2^(key/12)` and the right side
/// `2 * limit`. Neither is negative, so raising both to the twelfth power
/// keeps the comparison, and it makes the left side `(55 * n)^12 * 2^key`.
pub open spec fn multiple_within(key: nat, n: nat, limit: nat) -> bool {
    pow((LOWEST_KEY_HALF_HERTZ * n) as int, 12) * pow2(key) <= pow((2 * limit) as int, 12)
}

/// Whether harmonic number `harmonic` of `key` can be sampled without
/// aliasing: its frequency, `harmonic` times the fundamental frequency of the
/// key, is at most the Nyquist frequency. It is then below it, since it never
/// equals it (`lemma_multiple_never_meets_limit`).
pub open spec fn below_nyquist(key: nat, harmonic: nat) -> bool {
    multiple_within(key, harmonic, NYQUIST_FREQUENCY as nat)
}

/// Whether `period` is the sample rate divided by the fundamental frequency
/// `f` of `key`, rounded to the nearest integer:
/// `period - 1/2 <= SAMPLE_RATE / f < period + 1/2`, which is to say
/// `(2 * period - 1) * f <= 2 * SAMPLE_RATE < (2 * period + 1) * f`. The
/// quotient never lies halfway between two integers
/// (`lemma_multiple_never_meets_limit`).
pub open spec fn is_rounded_period(key: nat, period: nat) -> bool {
    &&& period >= 1
    &&& multiple_within(key, (2 * period - 1) as nat, 2 * SAMPLE_RATE as nat)
    &&& !multiple_within(key, 2 * period + 1, 2 * SAMPLE_RATE as nat)
}

/// Whether `count` is the length of one cycle of `key` in half samples,
/// rounded down: with `f` the fundamental frequency of the key,
/// `count <= 2 * SAMPLE_RATE / f < count + 1`, which is to say
/// `count * f <= 2 * SAMPLE_RATE < (count + 1) * f`.
pub open spec fn is_half_sample_wavelength(key: nat, count: nat) -> bool {
    &&& multiple_within(key, count, 2 * SAMPLE_RATE as nat)
    &&& !multiple_within(key, count + 1, 2 * SAMPLE_RATE as nat)
}

/// The highest harmonic number up to `limit` that stays within the Nyquist
/// frequency, or 0 if there is none.
pub open spec fn highest_harmonic_below_nyquist(key: nat, limit: nat) -> nat
    decreases limit,
{
    if limit == 0 {
        0
    } else if below_nyquist(key, limit) {
        limit
    } else {
        highest_harmonic_below_nyquist(key, (limit - 1) as nat)
    }
}

/// The number of harmonics of `key` that the engine may sum: the highest of
/// its `NUM_HARMONICS` harmonic numbers that stays within the Nyquist
/// frequency, and 0 for a key that is not on the keyboard.
pub open spec fn aliasing_cap(key: nat) -> nat {
    if key < NUM_KEYS {
        highest_harmonic_below_nyquist(key, NUM_HARMONICS as nat)
    } else {
        0
    }
}

/// A power grows with its base.
pub proof fn lemma_pow_base_increases(a: int, b: int, e: nat)
    requires
        0 <= a <= b,
    ensures
        0 <= pow(a, e) <= pow(b, e),
    decreases e,
{
    reveal(pow);
    if e > 0 {
        lemma_pow_base_increases(a, b, (e - 1) as nat);
        let x = pow(a, (e - 1) as nat);
        let y = pow(b, (e - 1) as nat);
        assert(0 <= a * x <= b * y) by (nonlinear_arith)
            requires
                0 <= a <= b,
                0 <= x <= y,
        ;
    }
}

/// Fewer cycles of the same key stay within the same limit.
pub proof fn lemma_multiple_within_fewer(key: nat, n: nat, m: nat, limit: nat)
    requires
        multiple_within(key, m, limit),
        n <= m,
    ensures
        multiple_within(key, n, limit),
{
    let a = (LOWEST_KEY_HALF_HERTZ * n) as int;
    let b = (LOWEST_KEY_HALF_HERTZ * m) as int;
    lemma_pow_base_increases(a, b, 12);
    lemma_pow2_pos(key);
    let x = pow(a, 12);
    let y = pow(b, 12);
    let p = pow2(key) as int;
    assert(x * p <= y * p) by (nonlinear_arith)
        requires
            0 <= x <= y,
            0 < p,
    ;
}

/// The same number of cycles of a lower key stays within the same limit.
pub proof fn lemma_multiple_within_lower_key(lower: nat, higher: nat, n: nat, limit: nat)
    requires
        lower <= higher,
        multiple_within(higher, n, limit),
    ensures
        multiple_within(lower, n, limit),
{
    let x = pow((LOWEST_KEY_HALF_HERTZ * n) as int, 12);
    lemma_pow_base_increases(0, (LOWEST_KEY_HALF_HERTZ * n) as int, 12);
    if lower < higher {
        lemma_pow2_strictly_increases(lower, higher);
    }
    let a = pow2(lower) as int;
    let b = pow2(higher) as int;
    assert(x * a <= x * b) by (nonlinear_arith)
        requires
            0 <= x,
            a <= b,
    ;
}

/// Scaling the number of cycles and the limit by the same factor changes
/// nothing.
pub proof fn lemma_multiple_within_scales(key: nat, n: nat, limit: nat, factor: nat)
    requires
        factor > 0,
    ensures
        multiple_within(key, factor * n, factor * limit) == multiple_within(key, n, limit),
{
    let f = factor as int;
    let a = (LOWEST_KEY_HALF_HERTZ * n) as int;
    let b = (2 * limit) as int;
    let p = pow2(key) as int;
    assert((LOWEST_KEY_HALF_HERTZ * (factor * n)) as int == f * a) by (nonlinear_arith)
        requires
            f == factor,
            a == LOWEST_KEY_HALF_HERTZ * n,
    ;
    assert((2 * (factor * limit)) as int == f * b) by (nonlinear_arith)
        requires
            f == factor,
            b == 2 * limit,
    ;
    lemma_pow_distributes(f, a, 12);
    lemma_pow_distributes(f, b, 12);
    lemma_pow_positive(f, 12);
    let s = pow(f, 12);
    let x = pow(a, 12);
    let y = pow(b, 12);
    assert(((s * x) * p <= s * y) == (x * p <= y)) by (nonlinear_arith)
        requires
            s > 0,
    ;
}

/// An octave higher, a cycle takes half as long: `n` cycles of the higher key
/// are `2 * n` cycles of the lower one.
pub proof fn lemma_multiple_within_octave(key: nat, n: nat, limit: nat)
    ensures
        multiple_within(key + KEYS_PER_OCTAVE as nat, n, limit) == multiple_within(
            key,
            2 * n,
            limit,
        ),
{
    let a = (LOWEST_KEY_HALF_HERTZ * n) as int;
    let p = pow2(key) as int;
    lemma_pow2_adds(key, 12);
    lemma2_to64();
    lemma_pow_distributes(2, a, 12);
    lemma_pow_positive(2, 12);
    let x = pow(a, 12);
    assert(x * (p * 4096) == (4096 * x) * p) by (nonlinear_arith);
}

/// `octaves` octaves higher, `n` cycles are `n * 2^octaves` cycles of the
/// lower key.
pub proof fn lemma_multiple_within_octaves(key: nat, octaves: nat, n: nat, limit: nat)
    ensures
        multiple_within(key + KEYS_PER_OCTAVE as nat * octaves, n, limit) == multiple_within(
            key,
            n * pow2(octaves),
            limit,
        ),
    decreases octaves,
{
    if octaves == 0 {
        lemma2_to64();
    } else {
        let below = (octaves - 1) as nat;
        lemma_multiple_within_octave(key + KEYS_PER_OCTAVE as nat * below, n, limit);
        lemma_multiple_within_octaves(key, below, 2 * n, limit);
        lemma_pow2_unfold(octaves);
        assert((2 * n) * pow2(below) == n * (2 * pow2(below))) by (nonlinear_arith);
    }
}

/// The twelfth power, written as four multiplications.
spec fn twelfth(b: int) -> int {
    let s = b * b;
    let q = s * s;
    (q * q) * q
}

/// `twelfth` is the twelfth power.
proof fn lemma_pow12(b: int)
    ensures
        pow(b, 12) == twelfth(b),
{
    lemma_pow1(b);
    lemma_pow_adds(b, 1, 1);
    lemma_pow_adds(b, 2, 2);
    lemma_pow_adds(b, 4, 4);
    lemma_pow_adds(b, 8, 4);
}

/// No whole number of cycles per second of any key is exactly the Nyquist
/// frequency or exactly twice the sample rate: to stay within either limit is
/// to stay below it, and no quotient that is rounded here lies halfway
/// between two integers.
pub proof fn lemma_multiple_never_meets_limit(key: nat, n: nat)
    ensures
        pow((LOWEST_KEY_HALF_HERTZ * n) as int, 12) * pow2(key) != pow(
            (2 * NYQUIST_FREQUENCY) as int,
            12,
        ),
        pow((LOWEST_KEY_HALF_HERTZ * n) as int, 12) * pow2(key) != pow(
            (2 * (2 * SAMPLE_RATE)) as int,
            12,
        ),
{
    // The left side is a multiple of 11, and neither limit is.
    let a = (LOWEST_KEY_HALF_HERTZ * n) as int;
    let rest = pow(a, 11) * pow2(key);
    lemma_pow1(a);
    lemma_pow_adds(a, 1, 11);
    assert((a * pow(a, 11)) * pow2(key) == 11 * ((5 * n) * rest)) by (nonlinear_arith)
        requires
            a == 55 * n,
            rest == pow(a, 11) * pow2(key),
    ;
    assert((11 * ((5 * n) * rest)) % 11 == 0) by (nonlinear_arith);
    lemma_pow12(44100);
    lemma_pow12(176400);
    assert(twelfth(44100) % 11 == 1) by (nonlinear_arith);
    assert(twelfth(176400) % 11 == 5) by (nonlinear_arith);
}

/// Length of one cycle of each of the twelve lowest keys in half samples,
/// rounded down. The cycle of a key an octave higher is half as long, so that
/// the table serves the whole keyboard.
pub const LOWEST_OCTAVE_WAVELENGTHS: [u32; 12] = [
    3207,
    3027,
    2857,
    2696,
    2545,
    2402,
    2267,
    2140,
    2020,
    1907,
    1800,
    1698,
];

/// A length in half samples is that of one cycle of a key, rounded down, if
/// the twelfth powers say so.
proof fn lemma_wavelength_from_powers(key: nat, count: int, scale: int)
    requires
        count >= 0,
        scale == pow2(key),
        twelfth(55 * count) * scale <= twelfth(176400),
        twelfth(176400) < twelfth(55 * (count + 1)) * scale,
    ensures
        is_half_sample_wavelength(key, count as nat),
{
    lemma_pow12(55 * count);
    lemma_pow12(55 * (count + 1));
    lemma_pow12(176400);
}

/// Each entry of the table is exact.
pub proof fn lemma_lowest_octave_wavelength(semitone: nat)
    requires
        semitone < KEYS_PER_OCTAVE,
    ensures
        is_half_sample_wavelength(semitone, LOWEST_OCTAVE_WAVELENGTHS[semitone as int] as nat),
{
    lemma2_to64();
    if semitone == 0 {
        assert(twelfth(55 * 3207int) * 1 <= twelfth(176400)) by (nonlinear_arith);
        assert(twelfth(176400) < twelfth(55 * 3208int) * 1) by (nonlinear_arith);
        lemma_wavelength_from_powers(0, 3207, 1);
    } else if semitone == 1 {
        assert(twelfth(55 * 3027int) * 2 <= twelfth(176400)) by (nonlinear_arith);
        assert(twelfth(176400) < twelfth(55 * 3028int) * 2) by (nonlinear_arith);
        lemma_wavelength_from_powers(1, 3027, 2);
    } else if semitone == 2 {
        assert(twelfth(55 * 2857int) * 4 <= twelfth(176400)) by (nonlinear_arith);
        assert(twelfth(176400) < twelfth(55 * 2858int) * 4) by (nonlinear_arith);
        lemma_wavelength_from_powers(2, 2857, 4);
    } else if semitone == 3 {
        assert(twelfth(55 * 2696int) * 8 <= twelfth(176400)) by (nonlinear_arith);
        assert(twelfth(176400) < twelfth(55 * 2697int) * 8) by (nonlinear_arith);
        lemma_wavelength_from_powers(3, 2696, 8);
    } else if semitone == 4 {
        assert(twelfth(55 * 2545int) * 16 <= twelfth(176400)) by (nonlinear_arith);
        assert(twelfth(176400) < twelfth(55 * 2546int) * 16) by (nonlinear_arith);
        lemma_wavelength_from_powers(4, 2545, 16);
    } else if semitone == 5 {
        assert(twelfth(55 * 2402int) * 32 <= twelfth(176400)) by (nonlinear_arith);
        assert(twelfth(176400) < twelfth(55 * 2403int) * 32) by (nonlinear_arith);
        lemma_wavelength_from_powers(5, 2402, 32);
    } else if semitone == 6 {
        assert(twelfth(55 * 2267int) * 64 <= twelfth(176400)) by (nonlinear_arith);
        assert(twelfth(176400) < twelfth(55 * 2268int) * 64) by (nonlinear_arith);
        lemma_wavelength_from_powers(6, 2267, 64);
    } else if semitone == 7 {
        assert(twelfth(55 * 2140int) * 128 <= twelfth(176400)) by (nonlinear_arith);
        assert(twelfth(176400) < twelfth(55 * 2141int) * 128) by (nonlinear_arith);
        lemma_wavelength_from_powers(7, 2140, 128);
    } else if semitone == 8 {
        assert(twelfth(55 * 2020int) * 256 <= twelfth(176400)) by (nonlinear_arith);
        assert(twelfth(176400) < twelfth(55 * 2021int) * 256) by (nonlinear_arith);
        lemma_wavelength_from_powers(8, 2020, 256);
    } else if semitone == 9 {
        assert(twelfth(55 * 1907int) * 512 <= twelfth(176400)) by (nonlinear_arith);
        assert(twelfth(176400) < twelfth(55 * 1908int) * 512) by (nonlinear_arith);
        lemma_wavelength_from_powers(9, 1907, 512);
    } else if semitone == 10 {
        assert(twelfth(55 * 1800int) * 1024 <= twelfth(176400)) by (nonlinear_arith);
        assert(twelfth(176400) < twelfth(55 * 1801int) * 1024) by (nonlinear_arith);
        lemma_wavelength_from_powers(10, 1800, 1024);
    } else if semitone == 11 {
        assert(twelfth(55 * 1698int) * 2048 <= twelfth(176400)) by (nonlinear_arith);
        assert(twelfth(176400) < twelfth(55 * 1699int) * 2048) by (nonlinear_arith);
        lemma_wavelength_from_powers(11, 1698, 2048);
    }
}

/// The table entry for the place of `key` in its octave, halved once for each
/// octave above the lowest and rounded down.
pub open spec fn half_sample_wavelength_of(key: nat) -> nat {
    LOWEST_OCTAVE_WAVELENGTHS[(key % KEYS_PER_OCTAVE as nat) as int] as nat / pow2(
        key / KEYS_PER_OCTAVE as nat,
    )
}

/// Halving the table entry once per octave gives the length of one cycle of
/// any key in half samples, rounded down.
pub proof fn lemma_half_sample_wavelength_of(key: nat)
    ensures
        is_half_sample_wavelength(key, half_sample_wavelength_of(key)),
{
    let semitone = key % KEYS_PER_OCTAVE as nat;
    let octave = key / KEYS_PER_OCTAVE as nat;
    let lowest = LOWEST_OCTAVE_WAVELENGTHS[semitone as int] as nat;
    let count = half_sample_wavelength_of(key);
    let scale = pow2(octave);
    let limit = 2 * SAMPLE_RATE as nat;
    lemma_pow2_pos(octave);
    lemma_lowest_octave_wavelength(semitone);
    assert(count * scale <= lowest < (count + 1) * scale) by (nonlinear_arith)
        requires
            scale > 0,
            count == lowest / scale,
    ;
    lemma_multiple_within_octaves(semitone, octave, count, limit);
    lemma_multiple_within_octaves(semitone, octave, count + 1, limit);
    lemma_multiple_within_fewer(semitone, count * scale, lowest, limit);
    if multiple_within(semitone, (count + 1) * scale, limit) {
        lemma_multiple_within_fewer(semitone, lowest + 1, (count + 1) * scale, limit);
    }
}

/// Given the length of a cycle in half samples, `n` cycles per second stay
/// within twice the sample rate exactly when `n` is at most that length.
pub proof fn lemma_half_sample_wavelength_bounds(key: nat, count: nat, n: nat)
    requires
        is_half_sample_wavelength(key, count),
    ensures
        multiple_within(key, n, 2 * SAMPLE_RATE as nat) <==> n <= count,
{
    let limit = 2 * SAMPLE_RATE as nat;
    if n <= count {
        lemma_multiple_within_fewer(key, n, count, limit);
    } else if multiple_within(key, n, limit) {
        lemma_multiple_within_fewer(key, count + 1, n, limit);
    }
}

/// A cycle of any key of the keyboard is between 21 and 3207 half samples
/// long.
pub proof fn lemma_half_sample_wavelength_range(key: nat, count: nat)
    requires
        key < NUM_KEYS,
        is_half_sample_wavelength(key, count),
    ensures
        21 <= count <= 3207,
{
    let limit = 2 * SAMPLE_RATE as nat;
    let top = (NUM_KEYS - 1) as nat;
    lemma2_to64();
    lemma_half_sample_wavelength_of(top);
    assert(half_sample_wavelength_of(top) == 2696nat / 128);
    lemma_multiple_within_lower_key(key, top, 21, limit);
    lemma_half_sample_wavelength_bounds(key, count, 21);
    lemma_lowest_octave_wavelength(0);
    if multiple_within(key, 3208, limit) {
        lemma_multiple_within_lower_key(0, key, 3208, limit);
    }
    lemma_half_sample_wavelength_bounds(key, count, 3208);
}

/// Length of one cycle of `key` in half samples, rounded down.
pub fn half_sample_wavelength(key: usize) -> (count: u32)
    requires
        key < NUM_KEYS,
    ensures
        is_half_sample_wavelength(key as nat, count as nat),
        21 <= count <= 3207,
{
    let octave: usize = key / KEYS_PER_OCTAVE;
    let semitone: usize = key % KEYS_PER_OCTAVE;
    let lowest: u32 = LOWEST_OCTAVE_WAVELENGTHS[semitone];
    let shift: u32 = octave as u32;
    proof {
        lemma_u32_shr_is_div(lowest, shift);
        lemma_half_sample_wavelength_of(key as nat);
        lemma_half_sample_wavelength_range(key as nat, (lowest >> shift) as nat);
    }
    lowest >> shift
}

/// Rounding to the nearest period is rounding the length in half samples up
/// to the next even number and halving it.
pub proof fn lemma_rounded_period_of_wavelength(key: nat, count: nat, period: nat)
    requires
        is_half_sample_wavelength(key, count),
        count >= 1,
    ensures
        is_rounded_period(key, period) <==> period == (count + 1) / 2,
{
    if period >= 1 {
        lemma_half_sample_wavelength_bounds(key, count, (2 * period - 1) as nat);
    }
    lemma_half_sample_wavelength_bounds(key, count, 2 * period + 1);
}

/// At most one period is the rounded quotient of the sample rate and the
/// fundamental frequency of a key.
pub proof fn lemma_rounded_period_unique(key: nat, p: nat, q: nat)
    requires
        is_rounded_period(key, p),
        is_rounded_period(key, q),
    ensures
        p == q,
{
    let limit = 2 * SAMPLE_RATE as nat;
    if p < q {
        lemma_multiple_within_fewer(key, 2 * p + 1, (2 * q - 1) as nat, limit);
    } else if q < p {
        lemma_multiple_within_fewer(key, 2 * q + 1, (2 * p - 1) as nat, limit);
    }
}

/// Number of samples in one cycle of `key`, rounded to the nearest integer.
pub fn piano_period(key: usize) -> (period: u32)
    requires
        key < NUM_KEYS,
    ensures
        is_rounded_period(key as nat, period as nat),
{
    let count: u32 = half_sample_wavelength(key);
    proof {
        lemma_rounded_period_of_wavelength(key as nat, count as nat, ((count + 1) / 2) as nat);
    }
    (count + 1) / 2
}

/// Twelve keys up, the period halves: the ratio of the two rounded periods
/// is within a tenth of 2.
pub proof fn lemma_octave_halves_period(key: nat, period: nat, octave_up: nat)
    requires
        key + KEYS_PER_OCTAVE < NUM_KEYS,
        is_rounded_period(key, period),
        is_rounded_period(key + KEYS_PER_OCTAVE as nat, octave_up),
    ensures
        19 * octave_up < 10 * period < 21 * octave_up,
{
    let limit = 2 * SAMPLE_RATE as nat;
    let upper = key + KEYS_PER_OCTAVE as nat;
    let count = half_sample_wavelength_of(key);
    let upper_count = half_sample_wavelength_of(upper);
    lemma_half_sample_wavelength_of(key);
    lemma_half_sample_wavelength_of(upper);
    lemma_half_sample_wavelength_range(key, count);
    lemma_half_sample_wavelength_range(upper, upper_count);
    lemma_rounded_period_of_wavelength(key, count, period);
    lemma_rounded_period_of_wavelength(upper, upper_count, octave_up);
    // The cycle of the upper key is half as long.
    lemma_multiple_within_octave(key, upper_count, limit);
    lemma_multiple_within_octave(key, upper_count + 1, limit);
    lemma_half_sample_wavelength_bounds(key, count, 2 * upper_count);
    lemma_half_sample_wavelength_bounds(key, count, 2 * (upper_count + 1));
}

/// A harmonic stays within the Nyquist frequency exactly when four of its
/// cycles fit into the length of one cycle of the key in half samples.
pub proof fn lemma_below_nyquist_of_wavelength(key: nat, count: nat, harmonic: nat)
    requires
        is_half_sample_wavelength(key, count),
    ensures
        below_nyquist(key, harmonic) <==> harmonic <= count / 4,
{
    lemma_multiple_within_scales(key, harmonic, NYQUIST_FREQUENCY as nat, 4);
    lemma_half_sample_wavelength_bounds(key, count, 4 * harmonic);
}

/// The highest harmonic up to `limit` is `limit` itself or a quarter of the
/// length of a cycle in half samples, whichever is less.
pub proof fn lemma_highest_harmonic_of_wavelength(key: nat, count: nat, limit: nat)
    requires
        is_half_sample_wavelength(key, count),
    ensures
        highest_harmonic_below_nyquist(key, limit) == if limit <= count / 4 {
            limit
        } else {
            count / 4
        },
    decreases limit,
{
    lemma_below_nyquist_of_wavelength(key, count, limit);
    if limit > 0 {
        lemma_highest_harmonic_of_wavelength(key, count, (limit - 1) as nat);
    }
}

/// Exactly the harmonics from 1 to the aliasing cap, of those the engine has,
/// stay within the Nyquist frequency.
pub proof fn lemma_aliasing_cap_bounds(key: nat, harmonic: nat)
    requires
        key < NUM_KEYS,
        1 <= harmonic <= NUM_HARMONICS,
    ensures
        aliasing_cap(key) <= NUM_HARMONICS,
        harmonic <= aliasing_cap(key) <==> below_nyquist(key, harmonic),
{
    let count = half_sample_wavelength_of(key);
    lemma_half_sample_wavelength_of(key);
    lemma_highest_harmonic_of_wavelength(key, count, NUM_HARMONICS as nat);
    lemma_below_nyquist_of_wavelength(key, count, harmonic);
}

/// A higher key has no more usable harmonics than a lower one.
pub proof fn lemma_aliasing_cap_decreases(lower: nat, higher: nat)
    requires
        lower <= higher,
    ensures
        aliasing_cap(higher) <= aliasing_cap(lower),
{
    if higher < NUM_KEYS {
        let low_count = half_sample_wavelength_of(lower);
        let high_count = half_sample_wavelength_of(higher);
        lemma_half_sample_wavelength_of(lower);
        lemma_half_sample_wavelength_of(higher);
        lemma_highest_harmonic_of_wavelength(lower, low_count, NUM_HARMONICS as nat);
        lemma_highest_harmonic_of_wavelength(higher, high_count, NUM_HARMONICS as nat);
        lemma_multiple_within_lower_key(lower, higher, high_count, 2 * SAMPLE_RATE as nat);
        lemma_half_sample_wavelength_bounds(lower, low_count, high_count);
    }
}

} // verus!
