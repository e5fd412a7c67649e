//! Volume gain applied while normalizing decoded frames.
//!
//! The gain is a scalar shared with the session controller, held here in
//! integer thousandths so the scaling arithmetic is exact: each sample is
//! multiplied by the gain, truncated toward zero, and saturated at the
//! sample type's natural range.

use vstd::prelude::*;

verus! {

/// Gain denominator: a gain of `GAIN_UNIT` thousandths leaves samples as
/// they are.
pub const GAIN_UNIT: u32 = 1000;

/// Gain the decode worker starts with, in thousandths.
pub const DEFAULT_GAIN_MILLI: u32 = 500;

/// Mathematical result of scaling one sample by `gain` thousandths:
/// multiply, truncate toward zero, saturate at the `i16` range.
pub open spec fn scaled(s: int, gain: int) -> int {
    if s >= 0 {
        let v = (s * gain) / 1000;
        if v > i16::MAX {
            i16::MAX as int
        } else {
            v
        }
    } else {
        let v = ((-s) * gain) / 1000;
        if v > 32768 {
            i16::MIN as int
        } else {
            -v
        }
    }
}

pub open spec fn scaled_i16(s: i16, gain: int) -> i16 {
    scaled(s as int, gain) as i16
}

/// A whole frame scaled sample by sample.
pub open spec fn scaled_frame(s: Seq<i16>, gain: int) -> Seq<i16> {
    Seq::new(s.len(), |i: int| scaled_i16(s[i], gain))
}

proof fn lemma_scaled_in_range(s: int, gain: int)
    requires
        i16::MIN <= s <= i16::MAX,
        gain >= 0,
    ensures
        i16::MIN <= scaled(s, gain) <= i16::MAX,
        scaled_i16(s as i16, gain) as int == scaled(s, gain),
{
    if s >= 0 {
        assert(s * gain >= 0) by (nonlinear_arith)
            requires
                s >= 0,
                gain >= 0,
        ;
        assert((s * gain) / 1000 >= 0);
    } else {
        assert((-s) * gain >= 0) by (nonlinear_arith)
            requires
                -s >= 0,
                gain >= 0,
        ;
        assert(((-s) * gain) / 1000 >= 0);
    }
}

/// Scales one sample by `gain_milli` thousandths, saturating rather than
/// wrapping at the `i16` range.
pub fn scale_sample(s: i16, gain_milli: u32) -> (r: i16)
    ensures
        r == scaled_i16(s, gain_milli as int),
        r as int == scaled(s as int, gain_milli as int),
{
    proof {
        lemma_scaled_in_range(s as int, gain_milli as int);
    }
    if s >= 0 {
        proof {
            assert((s as u64) * (gain_milli as u64) <= 32767 * 0xffff_ffffu64)
                by (nonlinear_arith)
                requires
                    s as u64 <= 32767,
                    gain_milli as u64 <= 0xffff_ffffu64,
            ;
        }
        let v: u64 = (s as u64) * (gain_milli as u64) / 1000;
        if v > 32767 {
            32767
        } else {
            v as i16
        }
    } else {
        let neg: i32 = -(s as i32);
        proof {
            assert((neg as u64) * (gain_milli as u64) <= 32768 * 0xffff_ffffu64)
                by (nonlinear_arith)
                requires
                    neg as u64 <= 32768,
                    gain_milli as u64 <= 0xffff_ffffu64,
            ;
        }
        let v: u64 = (neg as u64) * (gain_milli as u64) / 1000;
        if v > 32768 {
            -32768
        } else {
            let vi: i32 = v as i32;
            (-vi) as i16
        }
    }
}

/// Scales a whole decoded frame by the current gain.
#[verifier::loop_isolation(false)]
pub fn scale_samples(samples: &[i16], gain_milli: u32) -> (r: Vec<i16>)
    ensures
        r@ =~= scaled_frame(samples@, gain_milli as int),
    {
    let mut r: Vec<i16> = Vec::new();
    let n = samples.len();
    let mut i: usize = 0;
    while i < n
        invariant
            i <= n,
            r@.len() == i,
            forall|j: int| 0 <= j < i ==> r@[j] == scaled_i16(samples@[j], gain_milli as int),
        decreases n - i,
    {
        r.push(scale_sample(samples[i], gain_milli));
        i = i + 1;
    }
    r
}

} // verus!
