//! Decoded sample payloads and their normalization to the signed 16-bit
//! domain.
//!
//! A waveform container carries samples at one of four bit depths. Each is
//! brought to 16 bits: 8-bit samples are widened by a plain numeric cast,
//! 16-bit samples pass through, 24-bit samples (stored widened in 32-bit
//! integers) lose their low byte by an arithmetic shift, and 32-bit floats
//! (held here by their IEEE-754 bits) are scaled by 32767 and truncated
//! toward zero.

use vstd::arithmetic::power2::pow2;
use vstd::prelude::*;
use vstd::wrapping::i16_specs;

verus! {

/// A container's sample payload at its native bit depth. Float samples are
/// held by their raw IEEE-754 single-precision bits.
pub enum RawSamples {
    Eight(Vec<u8>),
    Sixteen(Vec<i16>),
    TwentyFour(Vec<i32>),
    FloatBits(Vec<u32>),
    Empty,
}

/// The mathematical view of a sample payload.
pub enum RawModel {
    Eight(Seq<u8>),
    Sixteen(Seq<i16>),
    TwentyFour(Seq<i32>),
    FloatBits(Seq<u32>),
    Empty,
}

impl View for RawSamples {
    type V = RawModel;

    open spec fn view(&self) -> RawModel {
        match self {
            RawSamples::Eight(v) => RawModel::Eight(v@),
            RawSamples::Sixteen(v) => RawModel::Sixteen(v@),
            RawSamples::TwentyFour(v) => RawModel::TwentyFour(v@),
            RawSamples::FloatBits(v) => RawModel::FloatBits(v@),
            RawSamples::Empty => RawModel::Empty,
        }
    }
}

/// A 24-bit sample, stored widened in a 32-bit integer, brought to 16 bits:
/// the arithmetic shift drops the low byte (a floor division by 256), and
/// the result is reduced to its low 16 bits.
pub open spec fn s24_to_i16(x: i32) -> i16 {
    i16_specs::signed_crop((x as int) / 256)
}

/// The sign bit of an IEEE-754 single-precision value.
pub open spec fn f32_sign(bits: u32) -> bool {
    bits >> 31 == 1
}

/// The biased exponent of an IEEE-754 single-precision value.
pub open spec fn f32_exp(bits: u32) -> u32 {
    (bits >> 23) & 0xff
}

/// The fraction field of an IEEE-754 single-precision value.
pub open spec fn f32_frac(bits: u32) -> u32 {
    bits & 0x7f_ffff
}

/// The magnitude of a finite IEEE-754 single-precision value scaled by
/// 32767 and truncated toward zero. A normal value is (2^23 + frac) *
/// 2^(exp - 150); a subnormal one is frac * 2^(-149).
pub open spec fn scaled_magnitude(exp: u32, frac: u32) -> int {
    if exp == 0 {
        32767 * frac / pow2(149) as int
    } else if exp >= 150 {
        32767 * (0x80_0000 + frac) * pow2((exp - 150) as nat) as int
    } else {
        32767 * (0x80_0000 + frac) / pow2((150 - exp) as nat) as int
    }
}

/// The 16-bit sample decoded from a float's bits: the value scaled by
/// 32767, truncated toward zero and saturated to the 16-bit range; zero
/// for a NaN.
pub open spec fn float_sample(bits: u32) -> i16 {
    let exp: u32 = f32_exp(bits);
    let frac: u32 = f32_frac(bits);
    if exp == 0xff {
        if frac != 0 {
            0i16
        } else if f32_sign(bits) {
            -32768i16
        } else {
            32767i16
        }
    } else {
        let mag: int = scaled_magnitude(exp, frac);
        if f32_sign(bits) {
            if mag >= 32768 {
                -32768i16
            } else {
                (-mag) as i16
            }
        } else {
            if mag >= 32767 {
                32767i16
            } else {
                mag as i16
            }
        }
    }
}

/// The normalized 16-bit sequence for a payload.
pub open spec fn normalize_spec(raw: RawModel) -> Seq<i16> {
    match raw {
        RawModel::Eight(s) => Seq::new(s.len(), |i: int| s[i] as i16),
        RawModel::Sixteen(s) => s,
        RawModel::TwentyFour(s) => Seq::new(s.len(), |i: int| s24_to_i16(s[i])),
        RawModel::FloatBits(s) => Seq::new(s.len(), |i: int| float_sample(s[i])),
        RawModel::Empty => Seq::empty(),
    }
}

/// Brings one widened 24-bit sample to 16 bits.
fn widen_24(x: i32) -> (r: i16)
    ensures
        r == s24_to_i16(x),
{
    let d: i32 = if x >= 0 {
        ((x as u32) / 256) as i32
    } else {
        let m: u32 = (-(x as i64)) as u32;
        let c: u32 = (m + 255) / 256;
        proof {
            vstd::arithmetic::div_mod::lemma_fundamental_div_mod(x as int, 256);
            vstd::arithmetic::div_mod::lemma_mod_bound(x as int, 256);
            let q: int = (x as int) / 256;
            let rr: int = (x as int) % 256;
            assert(m + 255 == 256 * (-q) + (255 - rr));
            vstd::arithmetic::div_mod::lemma_div_multiples_vanish_fancy(-q, 255 - rr, 256);
            assert(c == -q);
        }
        -(c as i32)
    };
    proof {
        assert(d == (x as int) / 256);
        assert(-0x80_0000 <= d < 0x80_0000) by {
            vstd::arithmetic::div_mod::lemma_div_is_ordered(-0x8000_0000, x as int, 256);
            vstd::arithmetic::div_mod::lemma_div_is_ordered(x as int, 0x7fff_ffff, 256);
        }
    }
    let off: u32 = (d + 0x80_0000) as u32;
    let rem: u32 = off % 65536;
    proof {
        vstd::arithmetic::div_mod::lemma_mod_multiples_vanish(128, d as int, 65536);
        assert(65536 * 128 + d == off);
        assert(rem == (d as int) % 65536);
        vstd::arithmetic::div_mod::lemma_mod_bound(d as int, 65536);
    }
    if rem >= 32768 {
        ((rem as i32) - 65536) as i16
    } else {
        rem as i16
    }
}

/// Decodes one float sample from its IEEE-754 bits to the 16-bit domain.
pub fn decode_float_sample(bits: u32) -> (r: i16)
    ensures
        r == float_sample(bits),
{
    let sign: bool = bits >> 31 == 1;
    let exp: u32 = (bits >> 23) & 0xff;
    let frac: u32 = bits & 0x7f_ffff;
    proof {
        assert(((bits >> 23) & 0xff) <= 0xff && (bits & 0x7f_ffff) <= 0x7f_ffff) by (bit_vector);
    }
    if exp == 0xff {
        if frac != 0 {
            0
        } else if sign {
            -32768
        } else {
            32767
        }
    } else if exp == 0 {
        proof {
            vstd::arithmetic::power2::lemma2_to64();
            vstd::arithmetic::power2::lemma2_to64_rest();
            vstd::arithmetic::power2::lemma_pow2_strictly_increases(39, 149);
            vstd::arithmetic::div_mod::lemma_basic_div(32767 * frac as int, pow2(149) as int);
        }
        0
    } else {
        let t: u64 = 32767u64 * (0x80_0000u64 + frac as u64);
        proof {
            vstd::arithmetic::power2::lemma2_to64();
            vstd::arithmetic::power2::lemma2_to64_rest();
            assert(t == 32767 * (0x80_0000 + frac as int));
            assert(t < pow2(39));
        }
        if exp >= 150 {
            proof {
                vstd::arithmetic::power2::lemma_pow2_pos((exp - 150) as nat);
                assert(t * pow2((exp - 150) as nat) >= t) by (nonlinear_arith)
                    requires
                        pow2((exp - 150) as nat) >= 1,
                        t >= 0,
                ;
            }
            if sign {
                -32768
            } else {
                32767
            }
        } else {
            let shift: u64 = (150 - exp) as u64;
            if shift >= 39 {
                proof {
                    if shift > 39 {
                        vstd::arithmetic::power2::lemma_pow2_strictly_increases(
                            39,
                            shift as nat,
                        );
                    }
                    vstd::arithmetic::div_mod::lemma_basic_div(t as int, pow2(shift as nat) as int);
                }
                0
            } else {
                let q: u64 = t >> shift;
                proof {
                    vstd::bits::lemma_u64_shr_is_div(t, shift);
                }
                if sign {
                    if q >= 32768 {
                        -32768
                    } else {
                        (-(q as i32)) as i16
                    }
                } else {
                    if q >= 32767 {
                        32767
                    } else {
                        q as i16
                    }
                }
            }
        }
    }
}

/// Normalizes a payload to the signed 16-bit domain, one output sample per
/// input sample.
pub fn normalize(raw: RawSamples) -> (out: Vec<i16>)
    ensures
        out@ == normalize_spec(raw@),
{
    match raw {
        RawSamples::Eight(v) => {
            let mut out: Vec<i16> = Vec::new();
            let n: usize = v.len();
            let mut i: usize = 0;
            while i < n
                invariant
                    0 <= i <= n,
                    n == v@.len(),
                    out@.len() == i,
                    forall|j: int| 0 <= j < i ==> out@[j] == v@[j] as i16,
                decreases n - i,
            {
                out.push(v[i] as i16);
                i = i + 1;
            }
            proof {
                assert(out@ =~= normalize_spec(RawModel::Eight(v@)));
            }
            out
        },
        RawSamples::Sixteen(v) => v,
        RawSamples::TwentyFour(v) => {
            let mut out: Vec<i16> = Vec::new();
            let n: usize = v.len();
            let mut i: usize = 0;
            while i < n
                invariant
                    0 <= i <= n,
                    n == v@.len(),
                    out@.len() == i,
                    forall|j: int| 0 <= j < i ==> out@[j] == s24_to_i16(v@[j]),
                decreases n - i,
            {
                let w: i16 = widen_24(v[i]);
                out.push(w);
                i = i + 1;
            }
            proof {
                assert(out@ =~= normalize_spec(RawModel::TwentyFour(v@)));
            }
            out
        },
        RawSamples::FloatBits(v) => {
            let mut out: Vec<i16> = Vec::new();
            let n: usize = v.len();
            let mut i: usize = 0;
            while i < n
                invariant
                    0 <= i <= n,
                    n == v@.len(),
                    out@.len() == i,
                    forall|j: int| 0 <= j < i ==> out@[j] == float_sample(v@[j]),
                decreases n - i,
            {
                let w: i16 = decode_float_sample(v[i]);
                out.push(w);
                i = i + 1;
            }
            proof {
                assert(out@ =~= normalize_spec(RawModel::FloatBits(v@)));
            }
            out
        },
        RawSamples::Empty => {
            let out: Vec<i16> = Vec::new();
            proof {
                assert(out@ =~= normalize_spec(RawModel::Empty));
            }
            out
        },
    }
}

} // verus!
