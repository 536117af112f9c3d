//! Sample processing on PCM data: channel downmix, linear-interpolation
//! resampling and RMS level metering, all in integer arithmetic on
//! 16-bit signed samples.

use vstd::prelude::*;

verus! {

use vstd::arithmetic::div_mod::lemma_fundamental_div_mod;
use vstd::arithmetic::div_mod::lemma_remainder_lower;

/// Dividing a nonnegative value by a larger divisor gives zero.
proof fn lemma_basic_div_specific(x: int, d: int)
    requires
        0 <= x < d,
    ensures
        x / d == 0,
{
    lemma_fundamental_div_mod(x, d);
    vstd::arithmetic::div_mod::lemma_remainder_upper(x, d);
    if x / d >= 1 {
        assert(d * (x / d) >= d) by (nonlinear_arith)
            requires d >= 1, x / d >= 1;
    }
    if x / d < 0 {
        assert(d * (x / d) <= -d) by (nonlinear_arith)
            requires d >= 1, x / d <= -1;
    }
}

/// Sum of the squares of a sample sequence.
pub open spec fn spec_sum_squares(s: Seq<i16>) -> int
    decreases s.len(),
{
    if s.len() == 0 {
        0
    } else {
        spec_sum_squares(s.drop_last()) + s.last() * s.last()
    }
}

/// The sum of squares is never negative.
pub proof fn lemma_sum_squares_nonneg(s: Seq<i16>)
    ensures
        spec_sum_squares(s) >= 0,
    decreases s.len(),
{
    if s.len() > 0 {
        lemma_sum_squares_nonneg(s.drop_last());
        assert(s.last() * s.last() >= 0) by (nonlinear_arith);
    }
}

/// A sequence of zeros has a zero sum of squares.
pub proof fn lemma_sum_squares_zero(s: Seq<i16>)
    requires
        forall|i: int| 0 <= i < s.len() ==> s[i] == 0,
    ensures
        spec_sum_squares(s) == 0,
    decreases s.len(),
{
    if s.len() > 0 {
        lemma_sum_squares_zero(s.drop_last());
    }
}

/// The integer square root: the largest `r` with `r * r <= x`.
pub open spec fn is_isqrt(x: int, r: int) -> bool {
    r >= 0 && r * r <= x < (r + 1) * (r + 1)
}

/// Integer square root by binary search.
pub fn isqrt(x: u64) -> (r: u64)
    requires
        x <= 0x4000_0000,
    ensures
        is_isqrt(x as int, r as int),
{
    let mut lo: u64 = 0;
    let mut hi: u64 = 0x10000;
    while lo + 1 < hi
        invariant
            lo < hi <= 0x10000,
            lo * lo <= x,
            x < hi * hi,
        decreases hi - lo,
    {
        let mid: u64 = lo + (hi - lo) / 2;
        proof {
            assert(mid * mid <= 0x1_0000_0000) by (nonlinear_arith)
                requires mid <= 0x10000;
        }
        if mid * mid <= x {
            lo = mid;
        } else {
            hi = mid;
        }
    }
    lo
}

/// The RMS level of a sample slice in fixed point: the square root of the
/// mean square, clamped to full scale. The result over 32767 is the level
/// in 0.0 ..= 1.0; an empty slice has level 0.
pub open spec fn spec_rms(s: Seq<i16>) -> int {
    if s.len() == 0 {
        0
    } else {
        let mean = spec_sum_squares(s) / s.len() as int;
        let root = choose|r: int| is_isqrt(mean, r);
        if root > 32767 {
            32767
        } else {
            root
        }
    }
}

/// The integer square root of a value is unique.
pub proof fn lemma_isqrt_unique(x: int, r1: int, r2: int)
    requires
        is_isqrt(x, r1),
        is_isqrt(x, r2),
    ensures
        r1 == r2,
{
    if r1 < r2 {
        assert((r1 + 1) * (r1 + 1) <= r2 * r2) by (nonlinear_arith)
            requires 0 <= r1 < r2;
    }
    if r2 < r1 {
        assert((r2 + 1) * (r2 + 1) <= r1 * r1) by (nonlinear_arith)
            requires 0 <= r2 < r1;
    }
}

/// Compute the RMS level of a slice of samples, in units of `1/32767`
/// of full scale.
///
/// The level is always in `0 ..= 32767` (the unit interval in fixed
/// point), and an all-zero or empty slice has level exactly 0.
pub fn calculate_rms(samples: &[i16]) -> (r: u16)
    requires
        samples@.len() <= 0x2_0000_0000,
    ensures
        r == spec_rms(samples@),
        r <= 32767,
        samples@.len() == 0 ==> r == 0,
        (forall|i: int| 0 <= i < samples@.len() ==> samples@[i] == 0) ==> r == 0,
{
    let n = samples.len();
    if n == 0 {
        return 0;
    }
    let mut sum: u64 = 0;
    let mut i: usize = 0;
    while i < n
        invariant
            i <= n,
            n == samples@.len() <= 0x2_0000_0000,
            sum == spec_sum_squares(samples@.subrange(0, i as int)),
            sum <= i * 0x4000_0000,
        decreases n - i,
    {
        let s = samples[i] as i64;
        proof {
            assert(0 <= s * s <= 0x4000_0000) by (nonlinear_arith)
                requires -0x8000 <= s <= 0x7fff;
            assert(sum + s * s <= (i + 1) * 0x4000_0000);
            assert(samples@.subrange(0, i + 1).drop_last() == samples@.subrange(0, i as int));
        }
        sum = sum + (s * s) as u64;
        i = i + 1;
    }
    proof {
        assert(samples@.subrange(0, n as int) == samples@);
        lemma_sum_squares_nonneg(samples@);
    }
    let mean: u64 = sum / (n as u64);
    proof {
        assert(mean <= 0x4000_0000) by {
            assert(sum <= n * 0x4000_0000);
            assert(sum / (n as u64) <= 0x4000_0000) by (nonlinear_arith)
                requires n >= 1, sum <= n * 0x4000_0000;
        }
    }
    let root = isqrt(mean);
    proof {
        let chosen = choose|r: int| is_isqrt(mean as int, r);
        assert(is_isqrt(mean as int, root as int));
        lemma_isqrt_unique(mean as int, root as int, chosen);
        if (forall|j: int| 0 <= j < samples@.len() ==> samples@[j] == 0) {
            lemma_sum_squares_zero(samples@);
            assert(root * root <= 0);
            assert(root == 0) by (nonlinear_arith)
                requires root >= 0, root * root <= 0;
        }
    }
    if root > 32767 {
        32767
    } else {
        root as u16
    }
}

/// Ceiling division: the least integer at or above `a / b`.
pub open spec fn ceil_div(a: int, b: int) -> int {
    (a + b - 1) / b
}

/// How many samples resampling yields: the input length scaled by
/// `to / from` and rounded up. Equal rates and empty input are passed
/// through unchanged.
pub open spec fn spec_resample_len(len: int, from: int, to: int) -> int {
    if from == to || len == 0 {
        len
    } else {
        ceil_div(len * to, from)
    }
}

/// Linear interpolation between samples `a` and `b` at fraction
/// `rem / to`, computed as a weighted average on the samples shifted into
/// `0 ..= 65535` so that the rounding is a plain floor.
pub open spec fn spec_lerp(a: i16, b: i16, rem: int, to: int) -> int {
    ((a + 32768) * (to - rem) + (b + 32768) * rem) / to - 32768
}

/// The output sample at index `i`: the source position is `i * from / to`;
/// interpolate between the samples at its floor and the next one, take the
/// last sample plain at the tail, and pad with zero past the end.
pub open spec fn spec_sample_at(s: Seq<i16>, from: int, to: int, i: int) -> int {
    let idx = (i * from) / to;
    let rem = (i * from) % to;
    if idx + 1 < s.len() {
        spec_lerp(s[idx], s[idx + 1], rem, to)
    } else if idx < s.len() {
        s[idx] as int
    } else {
        0
    }
}

/// Rate conversion by linear interpolation. Equal rates and empty input
/// pass the samples through unchanged.
pub open spec fn spec_resample(s: Seq<i16>, from: int, to: int) -> Seq<i16> {
    if from == to || s.len() == 0 {
        s
    } else {
        Seq::new(
            ceil_div(s.len() * to, from) as nat,
            |i: int| spec_sample_at(s, from, to, i) as i16,
        )
    }
}

/// An interpolated value lies between the shifted sample bounds, so it
/// always fits a 16-bit sample.
proof fn lemma_lerp_in_range(a: i16, b: i16, rem: int, to: int)
    requires
        0 <= rem < to,
    ensures
        -32768 <= spec_lerp(a, b, rem, to) <= 32767,
{
    let va = a + 32768;
    let vb = b + 32768;
    assert(0 <= va * (to - rem) + vb * rem <= 65535 * to) by (nonlinear_arith)
        requires 0 <= va <= 65535, 0 <= vb <= 65535, 0 <= rem < to;
    assert(0 <= (va * (to - rem) + vb * rem) / to <= 65535) by (nonlinear_arith)
        requires to >= 1, 0 <= va * (to - rem) + vb * rem <= 65535 * to;
}

/// Resample a slice of mono samples from rate `from_rate` to rate
/// `to_rate` by linear interpolation.
///
/// With equal rates (or an empty slice) the samples come back unchanged;
/// otherwise the output holds exactly `ceil(len * to / from)` samples,
/// each interpolated at its source position.
pub fn resample(samples: &[i16], from_rate: u32, to_rate: u32) -> (r: Vec<i16>)
    requires
        from_rate != to_rate && samples@.len() > 0 ==> from_rate >= 1,
        from_rate != to_rate && samples@.len() > 0 ==> samples@.len() * to_rate + from_rate
            <= u64::MAX,
        from_rate != to_rate && samples@.len() > 0 ==> ceil_div(
            samples@.len() * to_rate,
            from_rate as int,
        ) <= usize::MAX,
    ensures
        r@ == spec_resample(samples@, from_rate as int, to_rate as int),
        r@.len() == spec_resample_len(samples@.len() as int, from_rate as int, to_rate as int),
        from_rate == to_rate ==> r@ == samples@,
{
    if from_rate == to_rate || samples.len() == 0 {
        let mut out: Vec<i16> = Vec::new();
        let mut i: usize = 0;
        while i < samples.len()
            invariant
                i <= samples@.len(),
                out@ == samples@.subrange(0, i as int),
            decreases samples@.len() - i,
        {
            out.push(samples[i]);
            i = i + 1;
        }
        proof {
            assert(samples@.subrange(0, samples@.len() as int) == samples@);
        }
        return out;
    }
    let len = samples.len();
    let from: u64 = from_rate as u64;
    let to: u64 = to_rate as u64;
    let out_len_w: u64 = (len as u64 * to + from - 1) / from;
    let out_len: usize = out_len_w as usize;
    let ghost sresult = spec_resample(samples@, from_rate as int, to_rate as int);
    proof {
        // The loop index times `from` stays below `len * to + from`.
        assert(out_len_w * from <= len * to + from - 1) by {
            lemma_fundamental_div_mod(len as int * to + from - 1, from as int);
            lemma_remainder_lower(len as int * to + from - 1, from as int);
        }
    }
    let mut out: Vec<i16> = Vec::new();
    let mut i: usize = 0;
    while i < out_len
        invariant
            i <= out_len,
            out@ == sresult.subrange(0, i as int),
        decreases out_len - i,
    {
        proof {
            lemma_fundamental_div_mod(len as int * to + from - 1, from as int);
            lemma_remainder_lower(len as int * to + from - 1, from as int);
            assert(out_len_w * from <= len as int * to + from - 1);
            if to == 0 {
                assert(len as int * to == 0) by (nonlinear_arith)
                    requires to == 0;
                lemma_basic_div_specific(from as int - 1, from as int);
                assert(false);
            }
            assert(i as int * from + from <= out_len_w * from) by (nonlinear_arith)
                requires i < out_len_w, from >= 1;
        }
        let pos: u64 = i as u64 * from;
        let idx_w: u64 = pos / to;
        let rem: u64 = pos % to;
        let ghost sv = spec_sample_at(samples@, from_rate as int, to_rate as int, i as int);
        let sample: i16;
        if idx_w + 1 < len as u64 {
            let idx = idx_w as usize;
            let a = samples[idx];
            let b = samples[idx + 1];
            let va: u64 = (a as i64 + 32768) as u64;
            let vb: u64 = (b as i64 + 32768) as u64;
            proof {
                assert(va * (to - rem) + vb * rem <= 65535 * to) by (nonlinear_arith)
                    requires va <= 65535, vb <= 65535, 0 <= rem < to;
                assert(65535 * to <= 65535 * 0xffff_ffffu64);
            }
            let num: u64 = va * (to - rem) + vb * rem;
            let q: u64 = num / to;
            proof {
                lemma_lerp_in_range(a, b, rem as int, to as int);
                assert(q == spec_lerp(a, b, rem as int, to as int) + 32768);
                assert(q <= 65535);
            }
            sample = (q as i64 - 32768) as i16;
        } else if idx_w < len as u64 {
            sample = samples[idx_w as usize];
        } else {
            sample = 0;
        }
        proof {
            assert(sample as int == sv);
            assert(sresult.subrange(0, i + 1) == sresult.subrange(0, i as int).push(sample));
        }
        out.push(sample);
        i = i + 1;
    }
    proof {
        assert(sresult.subrange(0, out_len as int) == sresult);
    }
    out
}

/// Sum of a sample sequence.
pub open spec fn spec_sum(s: Seq<i16>) -> int
    decreases s.len(),
{
    if s.len() == 0 {
        0
    } else {
        spec_sum(s.drop_last()) + s.last()
    }
}

/// Division rounding toward zero, as machine division of signed values
/// does.
pub open spec fn div_trunc(a: int, b: int) -> int {
    if a >= 0 {
        a / b
    } else {
        -((-a) / b)
    }
}

/// The mono sample at output index `i`: the average of the frame of
/// `channels` interleaved samples starting at `i * channels` (the last
/// frame may be short), divided by the full channel count as the
/// interleaving promises full frames.
pub open spec fn spec_downmix_at(s: Seq<i16>, channels: int, i: int) -> int {
    let lo = i * channels;
    let hi = if (i + 1) * channels <= s.len() {
        (i + 1) * channels
    } else {
        s.len() as int
    };
    div_trunc(spec_sum(s.subrange(lo, hi)), channels)
}

/// Downmix interleaved multi-channel samples to mono by averaging each
/// frame of `channels` samples.
pub open spec fn spec_downmix(s: Seq<i16>, channels: int) -> Seq<i16> {
    Seq::new(
        ceil_div(s.len() as int, channels) as nat,
        |i: int| spec_downmix_at(s, channels, i) as i16,
    )
}

/// Downmix an interleaved multi-channel slice to mono: each output sample
/// is the average of one frame of `channels` input samples.
pub fn downmix_mono(data: &[i16], channels: usize) -> (r: Vec<i16>)
    requires
        1 <= channels <= 0x1_0000_0000,
        data@.len() + channels <= usize::MAX,
    ensures
        r@ == spec_downmix(data@, channels as int),
        r@.len() == ceil_div(data@.len() as int, channels as int),
{
    let len = data.len();
    let out_len: usize = (len + channels - 1) / channels;
    let ghost sresult = spec_downmix(data@, channels as int);
    let mut out: Vec<i16> = Vec::new();
    let mut i: usize = 0;
    while i < out_len
        invariant
            i <= out_len,
            out@ == sresult.subrange(0, i as int),
        decreases out_len - i,
    {
        proof {
            lemma_fundamental_div_mod(len as int + channels - 1, channels as int);
            lemma_remainder_lower(len as int + channels - 1, channels as int);
            assert(out_len * channels <= len as int + channels - 1);
            assert(i as int * channels + channels <= out_len * channels) by (nonlinear_arith)
                requires i < out_len, channels >= 1;
        }
        let lo: usize = i * channels;
        let hi: usize = if lo + channels <= len {
            lo + channels
        } else {
            len
        };
        proof {
            assert((i + 1) * channels == lo + channels) by (nonlinear_arith)
                requires lo == i * channels;
            assert(lo <= len as int) by {
                if lo > len as int {
                    assert(data@.subrange(lo as int, hi as int).len() >= 0);
                }
            }
        }
        let ghost frame = data@.subrange(lo as int, hi as int);
        let mut acc: i64 = 0;
        let mut j: usize = lo;
        while j < hi
            invariant
                lo <= j <= hi <= len == data@.len(),
                hi - lo <= channels <= 0x1_0000_0000,
                acc == spec_sum(data@.subrange(lo as int, j as int)),
                (j - lo) * (-32768) <= acc <= (j - lo) * 32767,
            decreases hi - j,
        {
            proof {
                assert(data@.subrange(lo as int, j + 1).drop_last() == data@.subrange(
                    lo as int,
                    j as int,
                ));
            }
            acc = acc + data[j] as i64;
            j = j + 1;
        }
        let ch: i64 = channels as i64;
        let avg: i64 = if acc >= 0 {
            proof {
                assert(acc as int / ch as int <= 32767 && acc as int / ch as int >= 0)
                    by (nonlinear_arith)
                    requires ch >= 1, 0 <= acc as int <= ch as int * 32767;
            }
            acc / ch
        } else {
            let neg: i64 = -acc;
            proof {
                assert(neg as int / ch as int <= 32768 && neg as int / ch as int >= 0)
                    by (nonlinear_arith)
                    requires ch >= 1, 0 <= neg as int <= ch as int * 32768;
            }
            -(neg / ch)
        };
        proof {
            assert(avg == spec_downmix_at(data@, channels as int, i as int));
            assert(sresult.subrange(0, i + 1) == sresult.subrange(0, i as int).push(avg as i16));
        }
        out.push(avg as i16);
        i = i + 1;
    }
    proof {
        lemma_fundamental_div_mod(len as int + channels - 1, channels as int);
        assert(sresult.subrange(0, out_len as int) == sresult);
    }
    out
}

} // verus!
