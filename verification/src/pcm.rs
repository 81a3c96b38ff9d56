//! Conversion of samples to 16-bit signed PCM.
//!
//! A sample is a 32-bit IEEE 754 number, nominally in [-1.0, 1.0]. It comes in
//! here as its bit pattern: one sign bit, eight bits of exponent, 23 bits of
//! fraction. The PCM value of a sample is the sample times `PCM_SCALE`,
//! rounded to the nearest integer with ties away from zero, and held to the
//! 16-bit range. What is not a number converts to zero. In the other
//! direction a PCM value becomes the sample that is exactly that value
//! divided by `PCM_RANGE`.

use vstd::arithmetic::div_mod::lemma_basic_div;
use vstd::arithmetic::power2::{
    lemma2_to64, lemma2_to64_rest, lemma_pow2_adds, lemma_pow2_pos,
    lemma_pow2_strictly_increases, lemma_pow2_unfold, pow2,
};
use vstd::bits::{lemma_u64_shl_is_mul, lemma_u64_shr_is_div};
use vstd::prelude::*;

verus! {

/// Factor by which a sample is scaled.
pub const PCM_SCALE: i32 = 32767;

/// Divisor by which a PCM value becomes a sample.
pub const PCM_RANGE: i32 = 32768;

/// Largest PCM value.
pub const PCM_MAX: i16 = 32767;

/// Smallest PCM value.
pub const PCM_MIN: i16 = -32768;

/// `scaled` where it is a PCM value, else the PCM value nearest to it.
pub open spec fn saturate(scaled: int) -> int {
    if scaled > PCM_MAX as int {
        PCM_MAX as int
    } else if scaled < PCM_MIN as int {
        PCM_MIN as int
    } else {
        scaled
    }
}

/// Whether the sign bit of a sample is set.
pub open spec fn is_negative(bits: u32) -> bool {
    bits >= 0x8000_0000
}

/// The exponent field of a sample: eight bits.
pub open spec fn exponent_field(bits: u32) -> nat {
    (bits as nat / 0x80_0000) % 0x100
}

/// The fraction field of a sample: 23 bits.
pub open spec fn fraction_field(bits: u32) -> nat {
    bits as nat % 0x80_0000
}

/// Whether a sample is not a number.
pub open spec fn is_nan(bits: u32) -> bool {
    exponent_field(bits) == 255 && fraction_field(bits) != 0
}

/// Whether a sample is an infinity.
pub open spec fn is_infinite(bits: u32) -> bool {
    exponent_field(bits) == 255 && fraction_field(bits) == 0
}

/// The significand of a finite sample as an integer: the fraction, with the
/// hidden leading one unless the sample is subnormal.
pub open spec fn significand(bits: u32) -> nat {
    if exponent_field(bits) == 0 {
        fraction_field(bits)
    } else {
        fraction_field(bits) + 0x80_0000
    }
}

/// The power of two that the significand of a finite sample is multiplied by:
/// the magnitude of the sample is `significand * 2^binary_exponent`.
pub open spec fn binary_exponent(bits: u32) -> int {
    if exponent_field(bits) == 0 {
        -149
    } else {
        exponent_field(bits) - 150
    }
}

/// The magnitude of a finite sample times `PCM_SCALE`, rounded to the nearest
/// integer, a tie to the larger one.
pub open spec fn scaled_magnitude(bits: u32) -> nat {
    let product = significand(bits) * PCM_SCALE as nat;
    let exponent = binary_exponent(bits);
    if exponent >= 0 {
        product * pow2(exponent as nat)
    } else {
        (product + pow2((-exponent - 1) as nat)) / pow2((-exponent) as nat)
    }
}

/// The PCM value of a sample.
pub open spec fn pcm_of(bits: u32) -> int {
    if is_nan(bits) {
        0
    } else if is_infinite(bits) {
        if is_negative(bits) {
            PCM_MIN as int
        } else {
            PCM_MAX as int
        }
    } else if is_negative(bits) {
        saturate(-(scaled_magnitude(bits) as int))
    } else {
        saturate(scaled_magnitude(bits) as int)
    }
}

/// Converts one sample, given by its bits, to PCM. A sample beyond the range
/// becomes the nearest bound: the conversion never wraps around.
pub fn sample_to_pcm(bits: u32) -> (pcm: i16)
    ensures
        pcm == pcm_of(bits),
{
    let negative: bool = bits >= 0x8000_0000;
    let exponent: u32 = (bits / 0x80_0000) % 0x100;
    let fraction: u32 = bits % 0x80_0000;
    if exponent == 255 {
        return if fraction != 0 {
            0
        } else if negative {
            PCM_MIN
        } else {
            PCM_MAX
        };
    }
    if exponent <= 110 {
        proof {
            lemma_below_half_rounds_to_zero(bits);
        }
        return 0;
    }
    if exponent >= 150 {
        proof {
            lemma_large_sample_saturates(bits);
        }
        return if negative {
            PCM_MIN
        } else {
            PCM_MAX
        };
    }
    let shift: u64 = (150 - exponent) as u64;
    let product: u64 = (fraction as u64 + 0x80_0000) * 32767;
    proof {
        lemma2_to64();
        lemma2_to64_rest();
        if shift - 1 < 38 {
            lemma_pow2_strictly_increases((shift - 1) as nat, 38);
        }
        lemma_pow2_unfold(shift as nat);
        lemma_u64_shl_is_mul(1, (shift - 1) as u64);
    }
    let half: u64 = 1u64 << (shift - 1);
    let rounded: u64 = (product + half) >> shift;
    proof {
        lemma_u64_shr_is_div((product + half) as u64, shift);
        assert(rounded == scaled_magnitude(bits));
    }
    if negative {
        if rounded >= 32768 {
            PCM_MIN
        } else {
            -(rounded as i16)
        }
    } else {
        if rounded >= 32767 {
            PCM_MAX
        } else {
            rounded as i16
        }
    }
}

/// Converts the samples of one buffer to PCM, each by `sample_to_pcm`.
pub fn samples_to_pcm(samples: &[u32]) -> (pcm: Vec<i16>)
    ensures
        pcm@.len() == samples@.len(),
        forall|i: int| 0 <= i < samples@.len() ==> #[trigger] pcm@[i] == pcm_of(samples@[i]),
{
    let n: usize = samples.len();
    let mut pcm: Vec<i16> = Vec::new();
    let mut i: usize = 0;
    while i < n
        invariant
            n == samples@.len(),
            i <= n,
            pcm@.len() == i,
            forall|k: int| 0 <= k < i ==> #[trigger] pcm@[k] == pcm_of(samples@[k]),
        decreases n - i,
    {
        pcm.push(sample_to_pcm(samples[i]));
        i += 1;
    }
    pcm
}

/// Whether `bits` is the sample whose value is exactly `pcm / PCM_RANGE`:
/// positive zero for zero, else the normal number of that sign whose
/// significand and exponent give that quotient.
pub open spec fn is_sample_of(bits: u32, pcm: int) -> bool {
    if pcm == 0 {
        bits == 0
    } else {
        &&& is_negative(bits) == (pcm < 0)
        &&& 1 <= exponent_field(bits) <= 127
        &&& significand(bits) * 32768 == (if pcm < 0 {
            -pcm
        } else {
            pcm
        }) * pow2((-binary_exponent(bits)) as nat)
    }
}

/// Converts one PCM value to the sample, given by its bits, that is the value
/// divided by `PCM_RANGE`. The result is exact: every PCM value is a sample.
pub fn pcm_to_sample(pcm: i16) -> (bits: u32)
    ensures
        is_sample_of(bits, pcm as int),
{
    if pcm == 0 {
        return 0;
    }
    let negative: bool = pcm < 0;
    let magnitude: u32 = if negative {
        (-(pcm as i32)) as u32
    } else {
        pcm as u32
    };
    let mut mantissa: u32 = magnitude;
    let mut field: u32 = 135;
    proof {
        lemma2_to64();
        assert(magnitude * pow2(0) == magnitude) by (nonlinear_arith)
            requires
                pow2(0) == 1,
        ;
    }
    while mantissa < 0x80_0000
        invariant
            pcm != 0,
            negative == (pcm < 0),
            magnitude == (if pcm < 0 {
                -pcm
            } else {
                pcm as int
            }),
            1 <= magnitude <= 32768,
            112 <= field <= 135,
            mantissa == magnitude * pow2((135 - field) as nat),
            mantissa < 0x100_0000,
            mantissa >= pow2((135 - field) as nat),
        decreases field,
    {
        proof {
            lemma2_to64();
            lemma_pow2_unfold((136 - field) as nat);
            assert(magnitude * (2 * pow2((135 - field) as nat)) == 2 * (magnitude * pow2(
                (135 - field) as nat,
            ))) by (nonlinear_arith);
        }
        mantissa = mantissa * 2;
        field = field - 1;
    }
    let body: u32 = field * 0x80_0000 + (mantissa - 0x80_0000);
    let bits: u32 = if negative {
        body + 0x8000_0000
    } else {
        body
    };
    proof {
        lemma2_to64();
        let lifted = (135 - field) as nat;
        assert(pow2((150 - field) as nat) == pow2(lifted) * 32768) by {
            lemma_pow2_adds(lifted, 15);
            assert(pow2(15) == 32768);
        }
        assert(mantissa * 32768 == magnitude * pow2((150 - field) as nat)) by (nonlinear_arith)
            requires
                mantissa == magnitude * pow2(lifted),
                pow2((150 - field) as nat) == pow2(lifted) * 32768,
        ;
        if lifted < 8 {
            lemma_pow2_strictly_increases(lifted, 8);
            assert(magnitude * pow2(lifted) < 32768 * 256) by (nonlinear_arith)
                requires
                    1 <= magnitude <= 32768,
                    pow2(lifted) < 256,
            ;
        }
        assert(field <= 127);
    }
    bits
}

/// Converts the PCM values of one buffer to samples, each by `pcm_to_sample`.
pub fn pcm_to_samples(pcm: &[i16]) -> (samples: Vec<u32>)
    ensures
        samples@.len() == pcm@.len(),
        forall|i: int| 0 <= i < pcm@.len() ==> is_sample_of(#[trigger] samples@[i], pcm@[i] as int),
{
    let n: usize = pcm.len();
    let mut samples: Vec<u32> = Vec::new();
    let mut i: usize = 0;
    while i < n
        invariant
            n == pcm@.len(),
            i <= n,
            samples@.len() == i,
            forall|k: int| 0 <= k < i ==> is_sample_of(#[trigger] samples@[k], pcm@[k] as int),
        decreases n - i,
    {
        samples.push(pcm_to_sample(pcm[i]));
        i += 1;
    }
    samples
}

/// A finite sample whose exponent field is at most 110 is so small that its
/// scaled magnitude lies below one half: it rounds to zero.
proof fn lemma_below_half_rounds_to_zero(bits: u32)
    requires
        exponent_field(bits) <= 110,
    ensures
        scaled_magnitude(bits) == 0,
        pcm_of(bits) == 0,
{
    let shift = (-binary_exponent(bits)) as nat;
    let product = significand(bits) * 32767;
    assert(product == significand(bits) * PCM_SCALE as nat);
    lemma2_to64_rest();
    if 39 < shift - 1 {
        lemma_pow2_strictly_increases(39, (shift - 1) as nat);
    }
    lemma_pow2_unfold(shift);
    assert(product < pow2(39));
    lemma_basic_div((product + pow2((shift - 1) as nat)) as int, pow2(shift) as int);
}

/// A finite sample whose exponent field is at least 150 has a scaled
/// magnitude beyond the 16-bit range.
proof fn lemma_large_sample_saturates(bits: u32)
    requires
        150 <= exponent_field(bits) < 255,
    ensures
        scaled_magnitude(bits) > 32768,
        pcm_of(bits) == if is_negative(bits) {
            PCM_MIN as int
        } else {
            PCM_MAX as int
        },
{
    let exponent = binary_exponent(bits) as nat;
    let product = significand(bits) * 32767;
    assert(product == significand(bits) * PCM_SCALE as nat);
    lemma_pow2_pos(exponent);
    assert(product * pow2(exponent) >= product) by (nonlinear_arith)
        requires
            pow2(exponent) >= 1,
            product >= 0,
    ;
}

/// A sample that is a power of two between one half and two, by its
/// exponent field, has the scale factor times that power as its scaled
/// magnitude.
proof fn lemma_unit_magnitudes(bits: u32)
    requires
        fraction_field(bits) == 0,
        126 <= exponent_field(bits) <= 128,
    ensures
        exponent_field(bits) == 126 ==> scaled_magnitude(bits) == 16384,
        exponent_field(bits) == 127 ==> scaled_magnitude(bits) == 32767,
        exponent_field(bits) == 128 ==> scaled_magnitude(bits) == 65534,
{
    lemma2_to64();
    let shift = (-binary_exponent(bits)) as nat;
    let product = significand(bits) * 32767;
    assert(product == significand(bits) * PCM_SCALE as nat);
    if exponent_field(bits) == 126 {
        assert(pow2(shift) == 0x100_0000 && pow2((shift - 1) as nat) == 0x80_0000);
        assert((product + 0x80_0000) / 0x100_0000 == 16384);
    } else if exponent_field(bits) == 127 {
        assert(pow2(shift) == 0x80_0000 && pow2((shift - 1) as nat) == 0x40_0000);
        assert((product + 0x40_0000) / 0x80_0000 == 32767);
    } else {
        assert(pow2(shift) == 0x40_0000 && pow2((shift - 1) as nat) == 0x20_0000);
        assert((product + 0x20_0000) / 0x40_0000 == 65534);
    }
}

/// Saturation keeps values in range as they are, keeps every result in
/// range, and keeps the order of any two inputs: a larger input never gives a
/// smaller PCM value, which a wrapping conversion would.
pub proof fn lemma_saturate_is_monotone(a: int, b: int)
    requires
        a <= b,
    ensures
        PCM_MIN <= saturate(a) <= saturate(b) <= PCM_MAX,
        PCM_MIN <= a <= PCM_MAX ==> saturate(a) == a,
        saturate(saturate(a)) == saturate(a),
{
}

/// Every sample converts to a value in the 16-bit range, and flipping the
/// sign of a sample flips the sign of its PCM value wherever that stays in
/// range.
pub proof fn lemma_pcm_in_range(bits: u32)
    ensures
        PCM_MIN <= pcm_of(bits) <= PCM_MAX,
        !is_negative(bits) ==> pcm_of(bits) >= 0,
        is_negative(bits) ==> pcm_of(bits) <= 0,
{
}

/// No two samples are the sample of one PCM value: `is_sample_of` fixes the
/// bits.
pub proof fn lemma_sample_is_unique(a: u32, b: u32, pcm: int)
    requires
        is_sample_of(a, pcm),
        is_sample_of(b, pcm),
    ensures
        a == b,
{
    if pcm != 0 {
        let magnitude: int = if pcm < 0 {
            -pcm
        } else {
            pcm
        };
        let shift_a = (-binary_exponent(a)) as nat;
        let shift_b = (-binary_exponent(b)) as nat;
        if shift_a < shift_b {
            lemma_doubled_power_exceeds(significand(a), significand(b), magnitude, shift_a, shift_b);
        } else if shift_b < shift_a {
            lemma_doubled_power_exceeds(significand(b), significand(a), magnitude, shift_b, shift_a);
        }
        assert(exponent_field(a) == exponent_field(b) && fraction_field(a) == fraction_field(b));
    }
}

/// The same multiple of a larger power of two is at least twice as large.
proof fn lemma_doubled_power_exceeds(low: nat, high: nat, magnitude: int, small: nat, large: nat)
    requires
        small < large,
        magnitude > 0,
        low * 32768 == magnitude * pow2(small),
        high * 32768 == magnitude * pow2(large),
    ensures
        high >= 2 * low,
{
    lemma_pow2_unfold((small + 1) as nat);
    if small + 1 < large {
        lemma_pow2_strictly_increases((small + 1) as nat, large);
    }
    assert(magnitude * pow2(large) >= magnitude * (2 * pow2(small))) by (nonlinear_arith)
        requires
            magnitude > 0,
            pow2(large) >= 2 * pow2(small),
    ;
    assert(magnitude * (2 * pow2(small)) == 2 * (magnitude * pow2(small))) by (nonlinear_arith);
}

/// Landmarks of the way back: the smallest PCM value is the sample -1.0, a
/// quarter of the range is 0.25, one step is 2 to the power of -15, and
/// silence is 0.0.
pub proof fn lemma_sample_of_landmarks()
    ensures
        is_sample_of(0xbf80_0000, PCM_MIN as int),
        is_sample_of(0x3e80_0000, 8192),
        is_sample_of(0x3800_0000, 1),
        is_sample_of(0, 0),
{
    lemma2_to64();
    lemma2_to64_rest();
}

/// The samples 1.0, -1.0, 2.0, -2.0 and 0.0, by their bits: full scale
/// converts to the scale factor, twice full scale saturates at the bounds of
/// the 16-bit range, silence converts to zero.
pub proof fn lemma_pcm_of_landmarks()
    ensures
        pcm_of(0x3f80_0000) == PCM_SCALE,
        pcm_of(0xbf80_0000) == -PCM_SCALE,
        pcm_of(0x4000_0000) == PCM_MAX,
        pcm_of(0xc000_0000) == PCM_MIN,
        pcm_of(0) == 0,
        pcm_of(0x8000_0000) == 0,
{
    lemma_unit_magnitudes(0x3f80_0000);
    lemma_unit_magnitudes(0xbf80_0000);
    lemma_unit_magnitudes(0x4000_0000);
    lemma_unit_magnitudes(0xc000_0000);
    lemma_below_half_rounds_to_zero(0);
    lemma_below_half_rounds_to_zero(0x8000_0000);
}

} // verus!
