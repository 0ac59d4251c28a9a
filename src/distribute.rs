//! The distribution rule shared by the layout engines: every slot gets its
//! minimum, and the space left over is shared out in proportion to the
//! slots' stretch weights.
//!
//! Integer shares are rounded on the running total of the weights: slot `i`
//! gets `q(i + 1) - q(i)` where `q(k) = extra * (w_0 + .. + w_{k-1}) / total`.
//! The shares telescope, so together they hand out exactly the extra space.
use vstd::prelude::*;
use vstd::arithmetic::div_mod::{lemma_div_is_ordered, lemma_div_by_multiple, lemma_div_pos_is_pos};
use vstd::arithmetic::mul::{lemma_mul_inequality, lemma_mul_nonnegative};
use crate::limits::FULL_EXTENT;

verus! {

/// The sum of the first `n` values of `s`.
pub open spec fn sum_to(s: Seq<i32>, n: int) -> int
    decreases n,
{
    if n <= 0 || n > s.len() {
        0
    } else {
        sum_to(s, n - 1) + s[n - 1] as int
    }
}

/// The sum of all values of `s`.
pub open spec fn sum_all(s: Seq<i32>) -> int {
    sum_to(s, s.len() as int)
}

/// The sum of the first `n` weights of `w`.
pub open spec fn weight_to(w: Seq<u32>, n: int) -> int
    decreases n,
{
    if n <= 0 || n > w.len() {
        0
    } else {
        weight_to(w, n - 1) + w[n - 1] as int
    }
}

/// The sum of all weights of `w`.
pub open spec fn weight_all(w: Seq<u32>) -> int {
    weight_to(w, w.len() as int)
}

/// The space beyond the sum of the minimums, never negative.
pub open spec fn spare(mins: Seq<i32>, available: int) -> int {
    if available - sum_all(mins) > 0 {
        available - sum_all(mins)
    } else {
        0
    }
}

/// The part of `extra` handed to the first `k` slots together.
pub open spec fn quota(extra: int, w: Seq<u32>, k: int) -> int {
    if weight_all(w) == 0 {
        0
    } else {
        (extra * weight_to(w, k)) / weight_all(w)
    }
}

/// The part of `extra` that slot `i` gets.
pub open spec fn share(extra: int, w: Seq<u32>, i: int) -> int {
    quota(extra, w, i + 1) - quota(extra, w, i)
}

/// The size of slot `i`: its minimum plus its share of the spare space.
pub open spec fn distributed(mins: Seq<i32>, w: Seq<u32>, available: int, i: int) -> int {
    mins[i] as int + share(spare(mins, available), w, i)
}

/// Minimums that a distribution accepts.
pub open spec fn valid_extents(mins: Seq<i32>) -> bool {
    forall|i: int| 0 <= i < mins.len() ==> 0 <= #[trigger] mins[i] <= FULL_EXTENT
}

/// Partial sums of valid extents are non-negative, at most `n` full extents,
/// and no more than the whole sum.
pub proof fn lemma_sum_to_bounds(s: Seq<i32>, n: int)
    requires
        valid_extents(s),
        0 <= n <= s.len(),
    ensures
        0 <= sum_to(s, n) <= n * FULL_EXTENT,
        sum_to(s, n) <= sum_all(s),
    decreases s.len() - n,
{
    lemma_sum_to_nonneg(s, n);
    if n < s.len() {
        lemma_sum_to_bounds(s, n + 1);
    }
    lemma_sum_to_upper(s, n);
}

proof fn lemma_sum_to_nonneg(s: Seq<i32>, n: int)
    requires
        valid_extents(s),
        0 <= n <= s.len(),
    ensures
        0 <= sum_to(s, n),
    decreases n,
{
    if n > 0 {
        lemma_sum_to_nonneg(s, n - 1);
    }
}

proof fn lemma_sum_to_upper(s: Seq<i32>, n: int)
    requires
        valid_extents(s),
        0 <= n <= s.len(),
    ensures
        sum_to(s, n) <= n * FULL_EXTENT,
    decreases n,
{
    if n > 0 {
        lemma_sum_to_upper(s, n - 1);
    }
}

/// Running weights grow with `k` and stay within the total.
pub proof fn lemma_weight_to_mono(w: Seq<u32>, j: int, k: int)
    requires
        0 <= j <= k <= w.len(),
    ensures
        0 <= weight_to(w, j) <= weight_to(w, k) <= weight_all(w),
{
    lemma_weight_le(w, j, k);
    lemma_weight_le(w, k, w.len() as int);
}

proof fn lemma_weight_le(w: Seq<u32>, j: int, k: int)
    requires
        0 <= j <= k <= w.len(),
    ensures
        0 <= weight_to(w, j) <= weight_to(w, k),
    decreases k - j,
{
    lemma_weight_to_nonneg(w, j);
    if j < k {
        lemma_weight_le(w, j, k - 1);
    }
}

proof fn lemma_weight_to_nonneg(w: Seq<u32>, n: int)
    requires
        0 <= n <= w.len(),
    ensures
        0 <= weight_to(w, n),
    decreases n,
{
    if n > 0 {
        lemma_weight_to_nonneg(w, n - 1);
    }
}

/// Quotas grow with `k`, from nothing to all of `extra`.
pub proof fn lemma_quota_mono(extra: int, w: Seq<u32>, j: int, k: int)
    requires
        0 <= extra,
        0 <= j <= k <= w.len(),
    ensures
        quota(extra, w, 0) == 0,
        0 <= quota(extra, w, j) <= quota(extra, w, k) <= quota(extra, w, w.len() as int),
        quota(extra, w, w.len() as int) == if weight_all(w) == 0 { 0 } else { extra },
{
    lemma_weight_to_mono(w, j, k);
    let t = weight_all(w);
    if t != 0 {
        let cj = weight_to(w, j);
        let ck = weight_to(w, k);
        lemma_mul_nonnegative(extra, cj);
        lemma_mul_inequality(cj, ck, extra);
        lemma_mul_inequality(ck, t, extra);
        assert(cj * extra == extra * cj) by (nonlinear_arith);
        assert(ck * extra == extra * ck) by (nonlinear_arith);
        assert(t * extra == extra * t) by (nonlinear_arith);
        lemma_div_pos_is_pos(extra * cj, t);
        lemma_div_is_ordered(extra * cj, extra * ck, t);
        lemma_div_is_ordered(extra * ck, extra * t, t);
        lemma_div_by_multiple(extra, t);
        assert(weight_to(w, 0) == 0);
        assert(extra * 0 == 0);
    }
}

/// Slot sizes under the distribution rule: slot `i` gets
/// `distributed(mins, weights, available, i)`.
pub fn distribute(mins: &Vec<i32>, weights: &Vec<u32>, available: i32) -> (r: Vec<i32>)
    requires
        mins.len() == weights.len(),
        valid_extents(mins@),
        available <= 2 * FULL_EXTENT,
    ensures
        r.len() == mins.len(),
        forall|i: int| 0 <= i < r.len() ==> r[i] == distributed(mins@, weights@, available as int, i),
{
    let n = mins.len();
    // The sum of the minimums, capped where it passes any available space.
    let cap: i64 = 2 * FULL_EXTENT as i64;
    let mut total_min: i64 = 0;
    let mut i: usize = 0;
    while i < n
        invariant
            i <= n,
            n == mins.len(),
            valid_extents(mins@),
            cap == 2 * FULL_EXTENT,
            total_min == if sum_to(mins@, i as int) > cap { cap as int } else { sum_to(mins@, i as int) },
        decreases n - i,
    {
        proof {
            lemma_sum_to_bounds(mins@, i as int);
        }
        let next = total_min + mins[i] as i64;
        total_min = if next > cap { cap } else { next };
        i = i + 1;
    }
    proof {
        lemma_sum_to_bounds(mins@, n as int);
    }
    let extra: i64 = if available as i64 - total_min > 0 { available as i64 - total_min } else { 0 };
    assert(extra == spare(mins@, available as int));

    let mut total_weight: u128 = 0;
    let mut k: usize = 0;
    while k < n
        invariant
            k <= n,
            n == weights.len(),
            total_weight == weight_to(weights@, k as int),
            total_weight <= k * 0xFFFF_FFFFu128,
        decreases n - k,
    {
        total_weight = total_weight + weights[k] as u128;
        assert(total_weight <= (k + 1) * 0xFFFF_FFFFu128) by (nonlinear_arith)
            requires
                total_weight <= k * 0xFFFF_FFFFu128 + 0xFFFF_FFFFu128,
        ;
        k = k + 1;
    }
    assert(total_weight <= 0x1_0000_0000_0000_0000u128 * 0x1_0000_0000u128) by (nonlinear_arith)
        requires
            total_weight <= n * 0xFFFF_FFFFu128,
            n <= usize::MAX,
    ;
    assert(total_weight == weight_all(weights@));

    let mut out: Vec<i32> = Vec::new();
    let mut running: u128 = 0;
    let mut j: usize = 0;
    while j < n
        invariant
            j <= n,
            n == mins.len(),
            n == weights.len(),
            valid_extents(mins@),
            0 <= extra <= 2 * FULL_EXTENT,
            extra == spare(mins@, available as int),
            total_weight == weight_all(weights@),
            total_weight <= 0x1_0000_0000_0000_0000u128 * 0x1_0000_0000u128,
            running == weight_to(weights@, j as int),
            out.len() == j,
            forall|m: int| 0 <= m < j ==> out[m] == distributed(mins@, weights@, available as int, m),
        decreases n - j,
    {
        let ghost e = extra as int;
        proof {
            lemma_weight_to_mono(weights@, j as int, j as int + 1);
            lemma_quota_mono(e, weights@, j as int, j as int + 1);
            lemma_quota_mono(e, weights@, j as int + 1, n as int);
        }
        let next_running = running + weights[j] as u128;
        let mut part: i64 = 0;
        if total_weight > 0 {
            assert(extra * next_running <= 0x8000_0000u128 * (0x1_0000_0000_0000_0000u128
                * 0x1_0000_0000u128)) by (nonlinear_arith)
                requires
                    0 <= extra <= 0x8000_0000,
                    0 <= next_running <= 0x1_0000_0000_0000_0000u128 * 0x1_0000_0000u128,
            ;
            assert(extra * running <= extra * next_running) by (nonlinear_arith)
                requires
                    0 <= extra,
                    0 <= running <= next_running,
            ;
            let hi = (extra as u128 * next_running) / total_weight;
            let lo = (extra as u128 * running) / total_weight;
            assert(hi == quota(e, weights@, j as int + 1));
            assert(lo == quota(e, weights@, j as int));
            part = (hi - lo) as i64;
        }
        assert(part == share(e, weights@, j as int));
        out.push(mins[j] + part as i32);
        running = next_running;
        j = j + 1;
    }
    out
}

/// The sum of the first `n` distributed sizes.
pub open spec fn distributed_to(mins: Seq<i32>, w: Seq<u32>, available: int, n: int) -> int
    decreases n,
{
    if n <= 0 {
        0
    } else {
        distributed_to(mins, w, available, n - 1) + distributed(mins, w, available, n - 1)
    }
}

/// Every slot gets at least its minimum and at most its minimum plus the
/// spare space, and the first `n` slots together get their minimums plus
/// their quota of the spare space.
pub proof fn lemma_distributed_prefix(mins: Seq<i32>, w: Seq<u32>, available: int, n: int)
    requires
        mins.len() == w.len(),
        valid_extents(mins),
        0 <= n <= mins.len(),
    ensures
        distributed_to(mins, w, available, n) == sum_to(mins, n) + quota(spare(mins, available), w, n),
        forall|i: int|
            0 <= i < mins.len() ==> mins[i] <= #[trigger] distributed(mins, w, available, i)
                <= mins[i] + spare(mins, available),
    decreases n,
{
    let e = spare(mins, available);
    assert forall|i: int| 0 <= i < mins.len() implies mins[i] <= #[trigger] distributed(
        mins,
        w,
        available,
        i,
    ) <= mins[i] + e by {
        lemma_quota_mono(e, w, i, i + 1);
        lemma_quota_mono(e, w, i + 1, w.len() as int);
    }
    lemma_quota_mono(e, w, 0, 0);
    if n > 0 {
        lemma_distributed_prefix(mins, w, available, n - 1);
    }
}

/// With some stretch weight present, the distribution hands out all the
/// available space (or just the minimums, where they exceed it), and no slot
/// gets less than its minimum.
pub proof fn lemma_distribute_conserves(mins: Seq<i32>, w: Seq<u32>, available: int)
    requires
        mins.len() == w.len(),
        valid_extents(mins),
        weight_all(w) > 0,
    ensures
        distributed_to(mins, w, available, mins.len() as int) == if available > sum_all(mins) {
            available
        } else {
            sum_all(mins)
        },
        forall|i: int| 0 <= i < mins.len() ==> mins[i] <= #[trigger] distributed(mins, w, available, i),
{
    lemma_distributed_prefix(mins, w, available, mins.len() as int);
    lemma_quota_mono(spare(mins, available), w, 0, mins.len() as int);
}

} // verus!
