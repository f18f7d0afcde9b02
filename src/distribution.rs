use vstd::prelude::*;
use vstd::relations::{sorted_by, total_ordering};
use vstd::seq_lib::lemma_sorted_unique;

use crate::error::PipelineError;

verus! {

/// The value that a variant file uses for a per-sample integer that is absent.
pub const MISSING_INTEGER: i32 = i32::MIN;

/// Ascending order on per-sample values.
pub open spec fn ascending() -> spec_fn(i32, i32) -> bool {
    |a: i32, b: i32| a <= b
}

/// The values of `s` in ascending order.
pub open spec fn sorted_values(s: Seq<i32>) -> Seq<i32> {
    s.sort_by(ascending())
}

/// The first value of each sample, in sample order, leaving out samples whose
/// first value is the missing sentinel and samples that hold no value at all.
pub open spec fn present_values(samples: Seq<Vec<i32>>) -> Seq<i32>
    decreases samples.len(),
{
    if samples.len() == 0 {
        seq![]
    } else {
        let init = present_values(samples.drop_last());
        let last = samples.last()@;
        if last.len() > 0 && last[0] != MISSING_INTEGER {
            init.push(last[0])
        } else {
            init
        }
    }
}

/// The sum of a sequence of values.
pub open spec fn sum_of(s: Seq<i32>) -> int
    decreases s.len(),
{
    if s.len() == 0 {
        0
    } else {
        sum_of(s.drop_last()) + s.last()
    }
}

/// One hundred times the linearly interpolated quantile at percentile `p` of the
/// ascending sequence `s`. Percentiles are whole numbers, so the quantile is
/// always an exact number of hundredths.
pub open spec fn quantile_x100(s: Seq<i32>, p: int) -> int {
    if s.len() == 1 {
        100 * s[0]
    } else if p == 100 {
        100 * s.last()
    } else {
        let rank_x100 = p * (s.len() - 1);
        let lo = rank_x100 / 100;
        100 * s[lo] + (s[lo + 1] - s[lo]) * (rank_x100 % 100)
    }
}

pub open spec fn is_ascending(s: Seq<i32>) -> bool {
    forall|i: int, j: int| 0 <= i < j < s.len() ==> s[i] <= s[j]
}

/// Summary statistics of the values of one per-sample field on one record.
/// Samples whose value is missing are left out before anything is computed.
/// Nothing is rounded: the three quantiles are kept exactly, in hundredths, and the
/// mean is `sum / count`.
#[derive(Debug, Clone, Copy, PartialEq, Eq)]
pub struct Distribution {
    pub min: i32,
    pub q25_x100: i64,
    pub median_x100: i64,
    pub q75_x100: i64,
    pub max: i32,
    pub sum: i128,
    pub count: u64,
}

impl Distribution {
    /// `self` summarises the (unordered, non-empty) values `vals`.
    pub open spec fn describes(self, vals: Seq<i32>) -> bool {
        let s = sorted_values(vals);
        &&& self.min == s[0]
        &&& self.max == s.last()
        &&& self.q25_x100 == quantile_x100(s, 25)
        &&& self.median_x100 == quantile_x100(s, 50)
        &&& self.q75_x100 == quantile_x100(s, 75)
        &&& self.sum == sum_of(vals)
        &&& self.count == vals.len()
    }
}

proof fn lemma_ascending_total()
    ensures
        total_ordering(ascending()),
{
}

proof fn lemma_rank_bound(p: int, n: int)
    requires
        0 <= p < 100,
        n >= 2,
    ensures
        0 <= (p * (n - 1)) / 100 < n - 1,
        0 <= (p * (n - 1)) % 100 < 100,
{
    assert(0 <= p * (n - 1) < 100 * (n - 1)) by (nonlinear_arith)
        requires
            0 <= p < 100,
            n >= 2,
    ;
}

/// The quantile at percentile 0 is the first value and at percentile 100 the last,
/// for every ascending sequence of two or more values.
pub proof fn lemma_quantile_ends(s: Seq<i32>)
    requires
        is_ascending(s),
        s.len() >= 2,
    ensures
        quantile_x100(s, 0) == 100 * s[0],
        quantile_x100(s, 100) == 100 * s[s.len() - 1],
{
    assert(0 * (s.len() - 1) == 0);
    assert(0int / 100 == 0 && 0int % 100 == 0);
    assert((s[1] - s[0]) * 0 == 0);
}

/// A single value is its own quantile at every percentile.
pub proof fn lemma_quantile_single(s: Seq<i32>, p: int)
    requires
        s.len() == 1,
        0 <= p <= 100,
    ensures
        quantile_x100(s, p) == 100 * s[0],
{
}

/// Whether a per-sample integer is the missing sentinel.
pub fn is_missing(x: i32) -> (r: bool)
    ensures
        r == (x == MISSING_INTEGER),
{
    x == MISSING_INTEGER
}

/// The first value of each sample that has one which is not missing, in sample order.
pub fn collect_present(samples: &Vec<Vec<i32>>) -> (r: Vec<i32>)
    ensures
        r@ == present_values(samples@),
{
    let mut r: Vec<i32> = Vec::new();
    let mut i: usize = 0;
    while i < samples.len()
        invariant
            i <= samples@.len(),
            r@ == present_values(samples@.subrange(0, i as int)),
        decreases samples@.len() - i,
    {
        let sample = &samples[i];
        if sample.len() > 0 && !is_missing(sample[0]) {
            r.push(sample[0]);
        }
        proof {
            assert(samples@.subrange(0, i + 1).drop_last() =~= samples@.subrange(0, i as int));
        }
        i = i + 1;
    }
    assert(samples@.subrange(0, samples@.len() as int) =~= samples@);
    r
}

/// The values of `v` in ascending order.
pub fn sort_ascending(v: &Vec<i32>) -> (r: Vec<i32>)
    ensures
        r@ == sorted_values(v@),
        is_ascending(r@),
{
    broadcast use vstd::seq_lib::group_to_multiset_ensures;

    let mut r: Vec<i32> = Vec::new();
    let mut i: usize = 0;
    while i < v.len()
        invariant
            i <= v@.len(),
            is_ascending(r@),
            r@.to_multiset() == v@.subrange(0, i as int).to_multiset(),
        decreases v@.len() - i,
    {
        let x = v[i];
        let mut j: usize = 0;
        while j < r.len() && r[j] <= x
            invariant
                j <= r@.len(),
                forall|k: int| 0 <= k < j ==> r@[k] <= x,
            decreases r@.len() - j,
        {
            j = j + 1;
        }
        let ghost before = r@;
        r.insert(j, x);
        proof {
            assert forall|a: int, b: int| 0 <= a < b < r@.len() implies r@[a] <= r@[b] by {
                if b < j {
                    assert(r@[a] == before[a] && r@[b] == before[b]);
                } else if b == j {
                    assert(r@[a] == before[a]);
                } else if a < j {
                    assert(r@[a] == before[a] && r@[b] == before[b - 1]);
                    assert(before[j as int] > x);
                } else if a == j {
                    assert(r@[b] == before[b - 1]);
                    assert(before[j as int] > x);
                } else {
                    assert(r@[a] == before[a - 1] && r@[b] == before[b - 1]);
                }
            }
            vstd::seq_lib::to_multiset_insert(before, j as int, x);
            assert(v@.subrange(0, i + 1) =~= v@.subrange(0, i as int).push(x));
            vstd::seq_lib::to_multiset_build(v@.subrange(0, i as int), x);
        }
        i = i + 1;
    }
    proof {
        assert(v@.subrange(0, v@.len() as int) =~= v@);
        lemma_ascending_total();
        v@.lemma_sort_by_ensures(ascending());
        assert(sorted_by(r@, ascending()));
        lemma_sorted_unique(r@, v@.sort_by(ascending()), ascending());
    }
    r
}

/// One hundred times the linearly interpolated quantile at percentile `p` of the
/// ascending, non-empty `sorted`.
pub fn quantile(sorted: &Vec<i32>, p: u32) -> (r: i64)
    requires
        sorted@.len() >= 1,
        is_ascending(sorted@),
        p <= 100,
    ensures
        r == quantile_x100(sorted@, p as int),
{
    let n = sorted.len();
    if n == 1 {
        return 100 * (sorted[0] as i64);
    }
    if p == 100 {
        return 100 * (sorted[n - 1] as i64);
    }
    proof {
        lemma_rank_bound(p as int, n as int);
        assert((p as int) * ((n - 1) as int) <= 100 * 0x1_0000_0000_0000_0000) by (nonlinear_arith)
            requires
                p <= 100,
                n - 1 <= 0x1_0000_0000_0000_0000,
        ;
    }
    let rank_x100: u128 = (p as u128) * ((n - 1) as u128);
    let lo = (rank_x100 / 100) as usize;
    let frac_x100 = (rank_x100 % 100) as i64;
    let low = sorted[lo] as i64;
    let high = sorted[lo + 1] as i64;
    proof {
        assert(-0x1_0000_0000 <= high - low <= 0x1_0000_0000);
        assert(-0x64_0000_0000 <= (high - low) * frac_x100 <= 0x64_0000_0000) by (nonlinear_arith)
            requires
                -0x1_0000_0000 <= high - low <= 0x1_0000_0000,
                0 <= frac_x100 < 100,
        ;
    }
    100 * low + (high - low) * frac_x100
}

/// The sum of the values.
pub fn sum_values(v: &Vec<i32>) -> (r: i128)
    ensures
        r == sum_of(v@),
{
    let mut sum: i128 = 0;
    let mut i: usize = 0;
    while i < v.len()
        invariant
            i <= v@.len(),
            sum == sum_of(v@.subrange(0, i as int)),
            -0x8000_0000 * i <= sum <= 0x8000_0000 * i,
        decreases v@.len() - i,
    {
        proof {
            assert(v@.subrange(0, i + 1).drop_last() =~= v@.subrange(0, i as int));
        }
        sum = sum + v[i] as i128;
        i = i + 1;
    }
    assert(v@.subrange(0, v@.len() as int) =~= v@);
    sum
}

/// Summary statistics over the first value of each sample, missing values left out.
/// Fails when no sample holds a value.
pub fn calc_distribution(samples: &Vec<Vec<i32>>) -> (r: Result<Distribution, PipelineError>)
    ensures
        present_values(samples@).len() == 0 <==> r is Err,
        r is Err ==> r->Err_0 == PipelineError::EmptyDistribution,
        r is Ok ==> r->Ok_0.describes(present_values(samples@)),
{
    let values = collect_present(samples);
    if values.len() == 0 {
        return Err(PipelineError::EmptyDistribution);
    }
    let sorted = sort_ascending(&values);
    proof {
        lemma_ascending_total();
        values@.lemma_sort_by_ensures(ascending());
        vstd::seq_lib::to_multiset_len(values@);
        vstd::seq_lib::to_multiset_len(sorted@);
    }
    let n = sorted.len();
    Ok(Distribution {
        min: sorted[0],
        q25_x100: quantile(&sorted, 25),
        median_x100: quantile(&sorted, 50),
        q75_x100: quantile(&sorted, 75),
        max: sorted[n - 1],
        sum: sum_values(&values),
        count: n as u64,
    })
}

} // verus!
