//! The weighted combiner: reduces a sample set to one millisecond offset
//! estimate. Each present sample is weighted by `1_000_000 / delay_ms^2`;
//! a sample with zero delay has no finite weight and is excluded, and an
//! empty or zero-weight remainder leaves the estimate undefined.

use vstd::prelude::*;
use vstd::arithmetic::div_mod::{
    lemma_basic_div, lemma_div_is_ordered, lemma_div_is_ordered_by_denominator,
    lemma_div_multiples_vanish,
};
use vstd::arithmetic::mul::lemma_mul_upper_bound;
use crate::sample::NTPResult;
use crate::sampler::TestResults;

verus! {

/// The weight of a sample whose round-trip delay is `delay` milliseconds:
/// one million divided by the squared delay, truncated. Meaningful only for
/// a non-zero delay; a zero delay has no finite weight.
pub open spec fn weight_spec(delay: int) -> int {
    1_000_000int / (delay * delay)
}

/// What one sample set entry adds to the combined numerator: its offset
/// times its weight. An absent entry, or one with zero delay, adds nothing.
pub open spec fn term_num(s: Option<NTPResult>) -> int {
    match s {
        Some(r) => if r.delay_spec() != 0 {
            r.offset_spec() * weight_spec(r.delay_spec())
        } else {
            0
        },
        None => 0,
    }
}

/// What one sample set entry adds to the combined total weight.
pub open spec fn term_den(s: Option<NTPResult>) -> int {
    match s {
        Some(r) => if r.delay_spec() != 0 {
            weight_spec(r.delay_spec())
        } else {
            0
        },
        None => 0,
    }
}

/// The combined numerator of a sample set: the sum of offset-times-weight
/// over its entries.
pub open spec fn combined_num(s: Seq<Option<NTPResult>>) -> int
    decreases s.len(),
{
    if s.len() == 0 {
        0
    } else {
        combined_num(s.drop_last()) + term_num(s.last())
    }
}

/// The combined total weight of a sample set.
pub open spec fn combined_den(s: Seq<Option<NTPResult>>) -> int
    decreases s.len(),
{
    if s.len() == 0 {
        0
    } else {
        combined_den(s.drop_last()) + term_den(s.last())
    }
}

/// The sum of value-times-weight over two paired lists.
pub open spec fn dot_sum(values: Seq<i64>, weights: Seq<u64>) -> int
    decreases values.len(),
{
    if values.len() == 0 || weights.len() == 0 {
        0
    } else {
        dot_sum(values.drop_last(), weights.drop_last()) + values.last() * weights.last()
    }
}

/// The sum of a weight list.
pub open spec fn weight_sum(weights: Seq<u64>) -> int
    decreases weights.len(),
{
    if weights.len() == 0 {
        0
    } else {
        weight_sum(weights.drop_last()) + weights.last()
    }
}

/// Sums stay within their per-element bounds times the length, and the
/// numerator stays within the value bound times the total weight.
proof fn lemma_sum_bounds(values: Seq<i64>, weights: Seq<u64>)
    requires
        values.len() == weights.len(),
        forall|i: int| 0 <= i < values.len() ==> 0 <= #[trigger] values[i] <= 5_000_000_000_000,
        forall|i: int| 0 <= i < weights.len() ==> #[trigger] weights[i] <= 1_000_000,
    ensures
        0 <= weight_sum(weights) <= 1_000_000 * weights.len(),
        0 <= dot_sum(values, weights) <= 5_000_000_000_000 * weight_sum(weights),
    decreases values.len(),
{
    if values.len() > 0 {
        lemma_sum_bounds(values.drop_last(), weights.drop_last());
        let v = values.last() as int;
        let w = weights.last() as int;
        lemma_mul_upper_bound(v, 5_000_000_000_000, w, w);
        assert(5_000_000_000_000 * weight_sum(weights) == 5_000_000_000_000 * weight_sum(
            weights.drop_last(),
        ) + 5_000_000_000_000 * w);
        lemma_mul_upper_bound(0, v, 0, w);
    }
}

/// A sample whose delay is zero has no finite weight and is excluded from
/// the weighted mean: adding it to a sample set changes neither the
/// combined numerator nor the combined total weight, however precise the
/// measurement it represents.
pub proof fn lemma_zero_delay_excluded(s: Seq<Option<NTPResult>>, r: NTPResult)
    requires
        r.delay_spec() == 0,
    ensures
        combined_num(s.push(Some(r))) == combined_num(s),
        combined_den(s.push(Some(r))) == combined_den(s),
{
    assert(s.push(Some(r)).drop_last() =~= s);
}

/// Computes the weighted arithmetic mean of the values, truncated to a
/// whole number, or nothing where the total weight is zero and the mean is
/// undefined.
pub fn weighted_mean(values: &Vec<i64>, weights: &Vec<u64>) -> (r: Option<i64>)
    requires
        values@.len() == weights@.len(),
        forall|i: int| 0 <= i < values@.len() ==> 0 <= #[trigger] values@[i] <= 5_000_000_000_000,
        forall|i: int| 0 <= i < weights@.len() ==> #[trigger] weights@[i] <= 1_000_000,
    ensures
        weight_sum(weights@) == 0 ==> r is None,
        weight_sum(weights@) > 0 ==> r == Some(
            (dot_sum(values@, weights@) / weight_sum(weights@)) as i64,
        ),
{
    let n = values.len();
    let mut num: u128 = 0;
    let mut den: u128 = 0;
    let mut i: usize = 0;
    while i < n
        invariant
            i <= n,
            n == values@.len() == weights@.len(),
            forall|k: int| 0 <= k < values@.len() ==> 0 <= #[trigger] values@[k] <= 5_000_000_000_000,
            forall|k: int| 0 <= k < weights@.len() ==> #[trigger] weights@[k] <= 1_000_000,
            num == dot_sum(values@.subrange(0, i as int), weights@.subrange(0, i as int)),
            den == weight_sum(weights@.subrange(0, i as int)),
            num <= 5_000_000_000_000_000_000 * (i as int),
            den <= 1_000_000 * (i as int),
        decreases n - i,
    {
        let ghost pv = values@.subrange(0, i as int);
        let ghost pw = weights@.subrange(0, i as int);
        let v = values[i];
        let w = weights[i];
        proof {
            assert(values@.subrange(0, i + 1).drop_last() =~= pv);
            assert(weights@.subrange(0, i + 1).drop_last() =~= pw);
            lemma_mul_upper_bound(v as int, 5_000_000_000_000, w as int, 1_000_000);
            lemma_mul_upper_bound(0, v as int, 0, w as int);
        }
        num = num + (v as u128) * (w as u128);
        den = den + (w as u128);
        i = i + 1;
    }
    proof {
        assert(values@.subrange(0, n as int) =~= values@);
        assert(weights@.subrange(0, n as int) =~= weights@);
    }
    if den == 0 {
        None
    } else {
        proof {
            lemma_sum_bounds(values@, weights@);
            lemma_div_is_ordered(
                dot_sum(values@, weights@),
                5_000_000_000_000 * weight_sum(weights@),
                weight_sum(weights@),
            );
            lemma_div_multiples_vanish(5_000_000_000_000, weight_sum(weights@));
            lemma_div_is_ordered(0, dot_sum(values@, weights@), weight_sum(weights@));
        }
        Some((num / den) as i64)
    }
}

/// The millisecond weight of a non-zero delay, computed without overflow:
/// any delay above a thousand milliseconds squares past the weight's
/// numerator, so its truncated weight is zero.
fn compute_weight(d: i64) -> (w: u64)
    requires
        d != 0,
        -9_200_000_000_000 <= d <= 9_200_000_000_000,
    ensures
        w == weight_spec(d as int),
        w <= 1_000_000,
{
    let mag: u64 = if d >= 0 {
        d as u64
    } else {
        (-d) as u64
    };
    proof {
        assert((d as int) * (d as int) == (mag as int) * (mag as int)) by (nonlinear_arith)
            requires
                mag == if d >= 0 {
                    d as int
                } else {
                    -(d as int)
                },
        ;
    }
    if mag <= 1000 {
        proof {
            assert(1 <= (mag as int) * (mag as int) <= 1_000_000) by (nonlinear_arith)
                requires
                    1 <= mag <= 1000,
            ;
            lemma_div_is_ordered_by_denominator(1_000_000, 1, (mag as int) * (mag as int));
            lemma_div_is_ordered(0, 1_000_000, (mag as int) * (mag as int));
        }
        1_000_000 / (mag * mag)
    } else {
        proof {
            assert((mag as int) * (mag as int) > 1_000_000) by (nonlinear_arith)
                requires
                    mag > 1000,
            ;
            lemma_basic_div(1_000_000, (mag as int) * (mag as int));
        }
        0
    }
}

impl TestResults {
    /// Reduces this sample set to the combined offset estimate in whole
    /// milliseconds: the weighted mean of the present samples' offsets,
    /// excluding every zero-delay sample, whose weight is not finite. The
    /// estimate is nothing where no weighted sample remains.
    pub fn get_time_millis(&self) -> (r: Option<i64>)
        requires
            self.wf(),
        ensures
            combined_den(self.samples@) == 0 ==> r is None,
            combined_den(self.samples@) > 0 ==> r == Some(
                (combined_num(self.samples@) / combined_den(self.samples@)) as i64,
            ),
    {
        let mut offsets: Vec<i64> = Vec::new();
        let mut offset_weights: Vec<u64> = Vec::new();
        let n = self.samples.len();
        let mut i: usize = 0;
        while i < n
            invariant
                i <= n,
                n == self.samples@.len(),
                self.wf(),
                offsets@.len() == offset_weights@.len(),
                forall|k: int| 0 <= k < offsets@.len() ==> 0 <= #[trigger] offsets@[k]
                    <= 5_000_000_000_000,
                forall|k: int| 0 <= k < offset_weights@.len() ==> #[trigger] offset_weights@[k]
                    <= 1_000_000,
                dot_sum(offsets@, offset_weights@) == combined_num(
                    self.samples@.subrange(0, i as int),
                ),
                weight_sum(offset_weights@) == combined_den(self.samples@.subrange(0, i as int)),
            decreases n - i,
        {
            let ghost pv = offsets@;
            let ghost pw = offset_weights@;
            proof {
                assert(self.samples@.subrange(0, i + 1).drop_last() =~= self.samples@.subrange(
                    0,
                    i as int,
                ));
            }
            match &self.samples[i] {
                Some(s) => {
                    let d = s.delay();
                    if d != 0 {
                        let o = s.offset();
                        let w = compute_weight(d);
                        offsets.push(o);
                        offset_weights.push(w);
                        proof {
                            assert(offsets@.drop_last() =~= pv);
                            assert(offset_weights@.drop_last() =~= pw);
                        }
                    }
                },
                None => {},
            }
            i = i + 1;
        }
        proof {
            assert(self.samples@.subrange(0, n as int) =~= self.samples@);
        }
        weighted_mean(&offsets, &offset_weights)
    }
}

} // verus!
