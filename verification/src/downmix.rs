//! Channel reduction: collapsing an interleaved multi-channel sequence into
//! one mono sample per frame by integer averaging.

use vstd::prelude::*;

verus! {

/// Sum of a sequence of 16-bit samples, as a mathematical integer.
pub open spec fn sample_sum(s: Seq<i16>) -> int
    decreases s.len(),
{
    if s.len() == 0 {
        0
    } else {
        sample_sum(s.drop_last()) + s.last()
    }
}

/// Division truncating toward zero (the semantics of Rust's `/`), for a
/// positive divisor.
pub open spec fn trunc_div(a: int, d: int) -> int {
    if a >= 0 {
        a / d
    } else {
        -((-a) / d)
    }
}

/// The integer mean of a frame: its sum divided by its length, truncating
/// toward zero.
pub open spec fn frame_mean(s: Seq<i16>) -> int {
    trunc_div(sample_sum(s), s.len() as int)
}

/// One mono sample per frame of `n` interleaved samples; the trailing
/// partial frame, if any, contributes nothing.
pub open spec fn reduce_spec(s: Seq<i16>, n: int) -> Seq<i16> {
    Seq::new((s.len() as int / n) as nat, |i: int| frame_mean(s.subrange(i * n, (i + 1) * n)) as i16)
}

proof fn lemma_sample_sum_push(s: Seq<i16>, x: i16)
    ensures
        sample_sum(s.push(x)) == sample_sum(s) + x,
{
    assert(s.push(x).drop_last() =~= s);
}

/// The integer mean of a non-empty slice of samples, truncating toward zero.
pub fn mean(x: &[i16]) -> (r: i16)
    requires
        1 <= x@.len() <= 65535,
    ensures
        r == frame_mean(x@),
{
    let n: usize = x.len();
    let mut total: i32 = 0;
    let mut k: usize = 0;
    while k < n
        invariant
            0 <= k <= n,
            n == x@.len() <= 65535,
            total == sample_sum(x@.subrange(0, k as int)),
            -32768 * k <= total <= 32767 * k,
        decreases n - k,
    {
        proof {
            assert(x@.subrange(0, k + 1) =~= x@.subrange(0, k as int).push(x@[k as int]));
            lemma_sample_sum_push(x@.subrange(0, k as int), x@[k as int]);
        }
        total = total + x[k] as i32;
        k = k + 1;
    }
    proof {
        assert(x@.subrange(0, n as int) =~= x@);
    }
    let neg: bool = total < 0;
    let mag: u32 = if neg {
        (-(total as i64)) as u32
    } else {
        total as u32
    };
    let len32: u32 = n as u32;
    let q: u32 = mag / len32;
    proof {
        if neg {
            assert(mag <= 32768 * n);
            assert(q <= 32768) by {
                vstd::arithmetic::div_mod::lemma_div_is_ordered(mag as int, 32768 * n, n as int);
                vstd::arithmetic::div_mod::lemma_div_by_multiple(32768, n as int);
            }
        } else {
            assert(mag <= 32767 * n);
            assert(q <= 32767) by {
                vstd::arithmetic::div_mod::lemma_div_is_ordered(mag as int, 32767 * n, n as int);
                vstd::arithmetic::div_mod::lemma_div_by_multiple(32767, n as int);
            }
        }
    }
    if neg {
        (-(q as i32)) as i16
    } else {
        q as i16
    }
}

/// Collapses `data`, interpreted as frames of `n` interleaved channel
/// samples, into one averaged sample per complete frame.
pub fn reduce_channels(data: &Vec<i16>, n: u16) -> (out: Vec<i16>)
    requires
        n >= 1,
    ensures
        out@ == reduce_spec(data@, n as int),
{
    let frames: usize = data.len() / (n as usize);
    let mut out: Vec<i16> = Vec::new();
    let mut i: usize = 0;
    proof {
        vstd::arithmetic::div_mod::lemma_fundamental_div_mod(data@.len() as int, n as int);
        vstd::arithmetic::div_mod::lemma_mod_bound(data@.len() as int, n as int);
        vstd::arithmetic::mul::lemma_mul_is_commutative(frames as int, n as int);
        assert(frames * n <= data@.len());
    }
    while i < frames
        invariant
            0 <= i <= frames,
            n >= 1,
            data@.len() <= usize::MAX,
            frames == data@.len() as int / n as int,
            frames * n <= data@.len(),
            out@.len() == i,
            forall|j: int| 0 <= j < i ==> out@[j] == reduce_spec(data@, n as int)[j],
        decreases frames - i,
    {
        proof {
            assert((i + 1) * n <= frames * n) by (nonlinear_arith)
                requires
                    i + 1 <= frames,
                    n >= 1,
            ;
            assert(i * n < (i + 1) * n) by (nonlinear_arith)
                requires
                    n >= 1,
            ;
            assert((i + 1) * n == i * n + n) by (nonlinear_arith);
        }
        let start: usize = i * (n as usize);
        let stop: usize = start + (n as usize);
        let mut frame: Vec<i16> = Vec::new();
        let mut k: usize = start;
        while k < stop
            invariant
                start <= k <= stop,
                stop == start + n,
                stop <= data@.len(),
                frame@ =~= data@.subrange(start as int, k as int),
            decreases stop - k,
        {
            frame.push(data[k]);
            proof {
                assert(frame@ =~= data@.subrange(start as int, k + 1));
            }
            k = k + 1;
        }
        let m: i16 = mean(frame.as_slice());
        out.push(m);
        proof {
            assert(out@[i as int] == reduce_spec(data@, n as int)[i as int]);
        }
        i = i + 1;
    }
    proof {
        assert(out@ =~= reduce_spec(data@, n as int));
    }
    out
}

/// Law: reduction yields exactly one sample per complete frame, so its
/// length is the floor of the input length over the channel count.
pub proof fn lemma_reduce_length(s: Seq<i16>, n: int)
    requires
        n >= 1,
    ensures
        reduce_spec(s, n).len() == s.len() as int / n,
{
}

/// Law: the trailing partial frame is dropped: reducing a sequence gives the
/// same result as reducing its truncation to a whole number of frames.
pub proof fn lemma_reduce_drops_tail(s: Seq<i16>, n: int)
    requires
        n >= 1,
    ensures
        reduce_spec(s, n) == reduce_spec(s.take(s.len() as int / n * n), n),
{
    let frames: int = s.len() as int / n;
    let t: Seq<i16> = s.take(frames * n);
    vstd::arithmetic::div_mod::lemma_fundamental_div_mod(s.len() as int, n);
    vstd::arithmetic::div_mod::lemma_mod_bound(s.len() as int, n);
    vstd::arithmetic::div_mod::lemma_div_pos_is_pos(s.len() as int, n);
    vstd::arithmetic::mul::lemma_mul_is_commutative(frames, n);
    assert(0 <= frames * n <= s.len());
    assert(t.len() == frames * n);
    assert(t.len() as int / n == frames) by {
        vstd::arithmetic::div_mod::lemma_div_by_multiple(frames, n);
    }
    assert forall|i: int| 0 <= i < frames implies reduce_spec(s, n)[i] == reduce_spec(t, n)[i] by {
        assert((i + 1) * n <= frames * n) by (nonlinear_arith)
            requires
                i + 1 <= frames,
                n >= 1,
        ;
        assert(0 <= i * n) by (nonlinear_arith)
            requires
                0 <= i,
                n >= 1,
        ;
        assert(i * n < (i + 1) * n) by (nonlinear_arith)
            requires
                n >= 1,
        ;
        assert(s.subrange(i * n, (i + 1) * n) =~= t.subrange(i * n, (i + 1) * n));
    }
    assert(reduce_spec(s, n) =~= reduce_spec(t, n));
}

} // verus!
