//! The phase-blend transform: widening a mono signal into an interleaved
//! stereo pair, with the primary signal phase-inverted across the channels
//! and an optional secondary signal mixed in-phase at reduced gain.
//!
//! The sums are not clamped: where they leave the 16-bit range they wrap,
//! as the output integer's native arithmetic would.

use crate::downmix::trunc_div;
use vstd::prelude::*;
use vstd::wrapping::i16_specs;

verus! {

/// The fixed attenuation applied to the blend signal: it contributes one
/// sixteenth of its amplitude to each output channel.
pub const BLEND_ATTENUATION: i16 = 16;

/// The blend signal's contribution to one output frame: the blend sample
/// divided by the fixed attenuation, truncating toward zero.
pub open spec fn atten(y: i16) -> i16 {
    trunc_div(y as int, BLEND_ATTENUATION as int) as i16
}

/// The blend sample paired with frame `i`: the blend sequence is read as if
/// extended with zeroes past its own end.
pub open spec fn blend_at(b: Seq<i16>, i: int) -> i16 {
    if 0 <= i < b.len() {
        b[i]
    } else {
        0
    }
}

/// The left output sample of one frame with blend: `y/16 - x`, wrapping.
pub open spec fn left_out(x: i16, y: i16) -> i16 {
    i16_specs::wrapping_sub(atten(y), x)
}

/// The right output sample of one frame with blend: `y/16 + x`, wrapping.
pub open spec fn right_out(x: i16, y: i16) -> i16 {
    i16_specs::wrapping_add(atten(y), x)
}

/// The stereo sequence produced without a blend signal: each primary sample
/// `x` becomes the pair `(x, -x)`, the negation wrapping.
pub open spec fn no_blend_spec(p: Seq<i16>) -> Seq<i16> {
    Seq::new(
        (2 * p.len()) as nat,
        |j: int|
            if j % 2 == 0 {
                p[j / 2]
            } else {
                i16_specs::wrapping_sub(0i16, p[j / 2])
            },
    )
}

/// The stereo sequence produced with a blend signal: each frame becomes the
/// pair `(y/16 - x, y/16 + x)`, where `y` is zero past the blend's end.
pub open spec fn blended_spec(p: Seq<i16>, b: Seq<i16>) -> Seq<i16> {
    Seq::new(
        (2 * p.len()) as nat,
        |j: int|
            if j % 2 == 0 {
                left_out(p[j / 2], blend_at(b, j / 2))
            } else {
                right_out(p[j / 2], blend_at(b, j / 2))
            },
    )
}

/// The transform's full result for a primary signal and an optional blend.
pub open spec fn phase_blend_spec(p: Seq<i16>, b: Option<Seq<i16>>) -> Seq<i16> {
    match b {
        None => no_blend_spec(p),
        Some(bb) => blended_spec(p, bb),
    }
}

/// The view of an optional borrowed sample vector.
pub open spec fn opt_view(b: Option<&Vec<i16>>) -> Option<Seq<i16>> {
    match b {
        None => None,
        Some(v) => Some(v@),
    }
}

/// The blend contribution of one sample: `y / 16`, truncating toward zero.
fn atten_sample(y: i16) -> (q: i16)
    ensures
        q == atten(y),
        -2048 <= q <= 2047,
{
    if y >= 0 {
        let q32: u32 = (y as u32) / (BLEND_ATTENUATION as u32);
        proof {
            vstd::arithmetic::div_mod::lemma_div_is_ordered(y as int, 32767, 16);
        }
        q32 as i16
    } else {
        let m: u32 = (-(y as i32)) as u32;
        let q32: u32 = m / (BLEND_ATTENUATION as u32);
        proof {
            vstd::arithmetic::div_mod::lemma_div_is_ordered(m as int, 32768, 16);
        }
        (-(q32 as i32)) as i16
    }
}

/// Interleaves the out-of-phase stereo image of `primary`, mixing in the
/// attenuated `blend` signal when one is given. The output holds exactly
/// two samples per primary sample; the blend never lengthens nor shortens
/// the output.
pub fn phase_blend(primary: &Vec<i16>, blend: Option<&Vec<i16>>) -> (out: Vec<i16>)
    ensures
        out@ == phase_blend_spec(primary@, opt_view(blend)),
{
    let mut out: Vec<i16> = Vec::new();
    let n: usize = primary.len();
    match blend {
        None => {
            let mut i: usize = 0;
            while i < n
                invariant
                    0 <= i <= n,
                    n == primary@.len(),
                    out@.len() == 2 * i,
                    forall|j: int| 0 <= j < 2 * i ==> out@[j] == no_blend_spec(primary@)[j],
                decreases n - i,
            {
                let x: i16 = primary[i];
                out.push(x);
                out.push(0i16.wrapping_sub(x));
                proof {
                    assert(out@[2 * i as int] == no_blend_spec(primary@)[2 * i as int]);
                    assert(out@[2 * i as int + 1] == no_blend_spec(primary@)[2 * i as int + 1]);
                }
                i = i + 1;
            }
            proof {
                assert(out@ =~= no_blend_spec(primary@));
            }
        },
        Some(b) => {
            let mut i: usize = 0;
            while i < n
                invariant
                    0 <= i <= n,
                    n == primary@.len(),
                    out@.len() == 2 * i,
                    forall|j: int| 0 <= j < 2 * i ==> out@[j] == blended_spec(primary@, b@)[j],
                decreases n - i,
            {
                let x: i16 = primary[i];
                let y: i16 = if i < b.len() {
                    b[i]
                } else {
                    0
                };
                let q: i16 = atten_sample(y);
                out.push(q.wrapping_sub(x));
                out.push(q.wrapping_add(x));
                proof {
                    assert(y == blend_at(b@, i as int));
                    assert(out@[2 * i as int] == blended_spec(primary@, b@)[2 * i as int]);
                    assert(out@[2 * i as int + 1] == blended_spec(primary@, b@)[2 * i as int + 1]);
                }
                i = i + 1;
            }
            proof {
                assert(out@ =~= blended_spec(primary@, b@));
            }
        },
    }
    out
}

/// Law: without a blend, the output carries two samples per input sample,
/// and each frame's right channel is the exact negation of its left
/// channel (stated away from the one sample, the minimum, whose negation
/// has no 16-bit representation).
pub proof fn lemma_no_blend_out_of_phase(p: Seq<i16>)
    ensures
        no_blend_spec(p).len() == 2 * p.len(),
        forall|i: int|
            0 <= i < p.len() ==> no_blend_spec(p)[2 * i] == p[i],
        forall|i: int|
            0 <= i < p.len() && p[i] != i16::MIN ==> no_blend_spec(p)[2 * i] == -no_blend_spec(
                p,
            )[2 * i + 1],
{
    assert forall|i: int| 0 <= i < p.len() implies no_blend_spec(p)[2 * i] == p[i] by {
        assert((2 * i) % 2 == 0);
        assert((2 * i) / 2 == i);
    }
    assert forall|i: int|
        0 <= i < p.len() && p[i] != i16::MIN implies no_blend_spec(p)[2 * i] == -no_blend_spec(
        p,
    )[2 * i + 1] by {
        assert((2 * i + 1) % 2 == 1);
        assert((2 * i + 1) / 2 == i);
    }
}

/// Law: for frames past the blend's end, the blend contributes zero, and
/// the output pair degenerates to `(-x, x)` (the negation wrapping at the
/// one sample with no representable negation).
pub proof fn lemma_blend_tail_degenerates(p: Seq<i16>, b: Seq<i16>, i: int)
    requires
        b.len() <= i < p.len(),
    ensures
        blended_spec(p, b)[2 * i + 1] == p[i],
        blended_spec(p, b)[2 * i] == i16_specs::wrapping_sub(0i16, p[i]),
        p[i] != i16::MIN ==> blended_spec(p, b)[2 * i] == -p[i],
{
    assert((2 * i) % 2 == 0);
    assert((2 * i) / 2 == i);
    assert((2 * i + 1) % 2 == 1);
    assert((2 * i + 1) / 2 == i);
    assert(blend_at(b, i) == 0);
    assert(atten(0) == 0);
}

} // verus!
