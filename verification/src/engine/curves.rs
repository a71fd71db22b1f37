//! The curve generator: fills the buckets of one harmonic's amplitude or
//! phase curve.

use vstd::prelude::*;

verus! {

/// Whether `sine_at` can be asked for each of the first `buckets` buckets of
/// a curve with the given offset, sine amplitude and sine frequency.
pub open spec fn sine_defined<T, F: Fn(T, T, T, usize) -> T>(
    sine_at: F,
    offset: T,
    sine_amp: T,
    sine_freq: T,
    buckets: nat,
) -> bool {
    forall|i: usize|
        i < buckets ==> #[trigger] call_requires(sine_at, (offset, sine_amp, sine_freq, i))
}

/// Whether `values` are what `sine_at` gives for each bucket of a curve with
/// the given offset, sine amplitude and sine frequency.
pub open spec fn is_sine_curve<T, F: Fn(T, T, T, usize) -> T>(
    values: Seq<T>,
    sine_at: F,
    offset: T,
    sine_amp: T,
    sine_freq: T,
) -> bool {
    forall|i: int|
        0 <= i < values.len() ==> call_ensures(
            sine_at,
            (offset, sine_amp, sine_freq, i as usize),
            #[trigger] values[i],
        )
}

/// Sets every bucket to `offset`.
pub fn fill_constant<T: Copy>(bucket_values: &mut Vec<T>, offset: T)
    ensures
        final(bucket_values)@ == Seq::new(old(bucket_values)@.len(), |i: int| offset),
{
    let len: usize = bucket_values.len();
    let mut i: usize = 0;
    while i < len
        invariant
            i <= len,
            bucket_values@.len() == len,
            forall|j: int| 0 <= j < i ==> bucket_values@[j] == offset,
        decreases len - i,
    {
        bucket_values.set(i, offset);
        i = i + 1;
    }
}

/// Sets bucket `i` to `sine_at(offset, sine_amp, sine_freq, i)`: the value
/// at bucket `i` of a sine of amplitude `sine_amp` and of `sine_freq` cycles
/// per bucket around `offset`.
pub fn fill_sine<T: Copy, F: Fn(T, T, T, usize) -> T>(
    bucket_values: &mut Vec<T>,
    offset: T,
    sine_amp: T,
    sine_freq: T,
    sine_at: &F,
)
    requires
        sine_defined(*sine_at, offset, sine_amp, sine_freq, old(bucket_values)@.len()),
    ensures
        final(bucket_values)@.len() == old(bucket_values)@.len(),
        is_sine_curve(final(bucket_values)@, *sine_at, offset, sine_amp, sine_freq),
{
    let len: usize = bucket_values.len();
    let mut i: usize = 0;
    while i < len
        invariant
            i <= len,
            bucket_values@.len() == len,
            sine_defined(*sine_at, offset, sine_amp, sine_freq, len as nat),
            forall|j: int|
                0 <= j < i ==> call_ensures(
                    sine_at,
                    (offset, sine_amp, sine_freq, j as usize),
                    #[trigger] bucket_values@[j],
                ),
        decreases len - i,
    {
        let value: T = sine_at(offset, sine_amp, sine_freq, i);
        bucket_values.set(i, value);
        i = i + 1;
    }
}

} // verus!
