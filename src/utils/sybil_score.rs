//! An auxiliary heuristic score in `0..=1000` of how legitimate an
//! interaction pattern looks against a profile's history.
use vstd::prelude::*;

verus! {

/// Bitwise exclusive or of all bytes.
pub open spec fn xor_fold(s: Seq<u8>) -> u32
    decreases s.len(),
{
    if s.len() == 0 {
        0
    } else {
        xor_fold(s.drop_last()) ^ (s.last() as u32)
    }
}

/// Sum of all bytes.
pub open spec fn byte_sum(s: Seq<u8>) -> int
    decreases s.len(),
{
    if s.len() == 0 {
        0
    } else {
        byte_sum(s.drop_last()) + s.last()
    }
}

/// Sum of all samples.
pub open spec fn sample_sum(h: Seq<u64>) -> int
    decreases h.len(),
{
    if h.len() == 0 {
        0
    } else {
        sample_sum(h.drop_last()) + h.last()
    }
}

/// The truncated mean of the samples; zero when there are none.
pub open spec fn sample_mean(h: Seq<u64>) -> int {
    if h.len() == 0 {
        0
    } else {
        sample_sum(h) / (h.len() as int)
    }
}

/// The squared distance of `x` from `mean`, cut to its low 64 bits.
pub open spec fn squared_deviation(x: u64, mean: int) -> int {
    let d = if x >= mean {
        x - mean
    } else {
        mean - x
    };
    (d * d) % 0x1_0000_0000_0000_0000
}

/// Sum of the squared deviations of the samples from `mean`.
pub open spec fn deviation_sum(h: Seq<u64>, mean: int) -> int
    decreases h.len(),
{
    if h.len() == 0 {
        0
    } else {
        deviation_sum(h.drop_last(), mean) + squared_deviation(h.last(), mean)
    }
}

/// The truncated variance of the samples; zero when there are none.
pub open spec fn sample_variance(h: Seq<u64>) -> int {
    if h.len() == 0 {
        0
    } else {
        deviation_sum(h, sample_mean(h)) / (h.len() as int)
    }
}

/// Score from the diversity of the pattern bytes, in `300..700`.
pub open spec fn legitimacy_score(pattern: Seq<u8>) -> int {
    (xor_fold(pattern) % 400) + 300
}

/// Score from the spread of the history: 700 less a hundredth of the variance
/// (capped at a million), kept within `300..=700`; 500 with no history.
pub open spec fn consistency_score(h: Seq<u64>) -> int {
    if h.len() == 0 {
        500
    } else {
        let v = if sample_variance(h) > 1_000_000 {
            1_000_000
        } else {
            sample_variance(h)
        };
        let s = 700 - v / 100;
        if s < 300 {
            300
        } else {
            s
        }
    }
}

/// Score from how far the pattern's byte sum lies from ten times the mean sample.
pub open spec fn anomaly_score(pattern: Seq<u8>, h: Seq<u64>) -> int {
    let a = byte_sum(pattern) - 10 * sample_mean(h);
    let gap = if a >= 0 {
        a
    } else {
        -a
    };
    if gap < 100 {
        700
    } else if gap < 1000 {
        600
    } else {
        450
    }
}

/// The blended score: 40% legitimacy, 35% consistency, 25% anomaly.
pub open spec fn ai_validation(pattern: Seq<u8>, h: Seq<u64>) -> int {
    let c = (legitimacy_score(pattern) * 40 + consistency_score(h) * 35 + anomaly_score(pattern, h)
        * 25) / 100;
    if c > 1000 {
        1000
    } else {
        c
    }
}

/// The inputs on which the sums the estimator keeps fit their machine types
/// (a 32-bit byte sum, 64-bit sample and deviation sums, ten times the mean);
/// on any other input those sums would overflow.
pub open spec fn estimable(pattern: Seq<u8>, h: Seq<u64>) -> bool {
    &&& byte_sum(pattern) <= u32::MAX
    &&& sample_sum(h) <= u64::MAX
    &&& 10 * sample_mean(h) <= u64::MAX
    &&& deviation_sum(h, sample_mean(h)) <= u64::MAX
}

proof fn lemma_sample_sum_nonneg(h: Seq<u64>)
    ensures
        sample_sum(h) >= 0,
    decreases h.len(),
{
    if h.len() > 0 {
        lemma_sample_sum_nonneg(h.drop_last());
    }
}

proof fn lemma_deviation_sum_nonneg(h: Seq<u64>, mean: int)
    ensures
        deviation_sum(h, mean) >= 0,
    decreases h.len(),
{
    if h.len() > 0 {
        lemma_deviation_sum_nonneg(h.drop_last(), mean);
    }
}

/// Scores an interaction pattern against a profile's history, in `0..=1000`.
pub fn validate_with_ai_score(interaction_pattern: &[u8], historical_data: &[u64]) -> (r: u32)
    requires
        estimable(interaction_pattern@, historical_data@),
    ensures
        r == ai_validation(interaction_pattern@, historical_data@),
        r <= 1000,
{
    let pattern_score = pattern_legitimacy(interaction_pattern);
    let historical_score = historical_consistency(historical_data);
    let anomaly = anomaly_detection(interaction_pattern, historical_data);
    let combined = (pattern_score * 40 + historical_score * 35 + anomaly * 25) / 100;
    if combined > 1000 {
        1000
    } else {
        combined
    }
}

fn pattern_legitimacy(pattern: &[u8]) -> (r: u32)
    ensures
        r == legitimacy_score(pattern@),
        300 <= r < 700,
{
    let mut diversity: u32 = 0;
    let mut i: usize = 0;
    while i < pattern.len()
        invariant
            0 <= i <= pattern@.len(),
            diversity == xor_fold(pattern@.subrange(0, i as int)),
        decreases pattern@.len() - i,
    {
        assert(pattern@.subrange(0, i + 1).drop_last() =~= pattern@.subrange(0, i as int));
        diversity = diversity ^ (pattern[i] as u32);
        i = i + 1;
    }
    assert(pattern@.subrange(0, pattern@.len() as int) =~= pattern@);
    (diversity % 400) + 300
}

fn sum_samples(h: &[u64]) -> (r: u64)
    requires
        sample_sum(h@) <= u64::MAX,
    ensures
        r == sample_sum(h@),
{
    let mut total: u64 = 0;
    let mut i: usize = 0;
    while i < h.len()
        invariant
            0 <= i <= h@.len(),
            sample_sum(h@) <= u64::MAX,
            total == sample_sum(h@.subrange(0, i as int)),
        decreases h@.len() - i,
    {
        let ghost prefix = h@.subrange(0, i + 1);
        assert(prefix.drop_last() =~= h@.subrange(0, i as int));
        proof {
            lemma_prefix_sum_bounded(h@, i + 1);
        }
        total = total + h[i];
        i = i + 1;
    }
    assert(h@.subrange(0, h@.len() as int) =~= h@);
    total
}

proof fn lemma_prefix_sum_bounded(h: Seq<u64>, k: int)
    requires
        0 <= k <= h.len(),
    ensures
        sample_sum(h.subrange(0, k)) <= sample_sum(h),
    decreases h.len(),
{
    if k < h.len() {
        assert(h.drop_last().subrange(0, k) =~= h.subrange(0, k));
        lemma_prefix_sum_bounded(h.drop_last(), k);
        lemma_sample_sum_nonneg(h.drop_last());
    } else {
        assert(h.subrange(0, k) =~= h);
    }
}

proof fn lemma_prefix_deviation_bounded(h: Seq<u64>, mean: int, k: int)
    requires
        0 <= k <= h.len(),
    ensures
        deviation_sum(h.subrange(0, k), mean) <= deviation_sum(h, mean),
    decreases h.len(),
{
    if k < h.len() {
        assert(h.drop_last().subrange(0, k) =~= h.subrange(0, k));
        lemma_prefix_deviation_bounded(h.drop_last(), mean, k);
    } else {
        assert(h.subrange(0, k) =~= h);
    }
}

proof fn lemma_prefix_byte_sum_bounded(s: Seq<u8>, k: int)
    requires
        0 <= k <= s.len(),
    ensures
        byte_sum(s.subrange(0, k)) <= byte_sum(s),
    decreases s.len(),
{
    if k < s.len() {
        assert(s.drop_last().subrange(0, k) =~= s.subrange(0, k));
        lemma_prefix_byte_sum_bounded(s.drop_last(), k);
    } else {
        assert(s.subrange(0, k) =~= s);
    }
}

fn mean_of(h: &[u64]) -> (r: u64)
    requires
        sample_sum(h@) <= u64::MAX,
    ensures
        r == sample_mean(h@),
{
    if h.len() == 0 {
        0
    } else {
        proof {
            lemma_sample_sum_nonneg(h@);
        }
        sum_samples(h) / (h.len() as u64)
    }
}

fn variance(data: &[u64]) -> (r: u64)
    requires
        sample_sum(data@) <= u64::MAX,
        deviation_sum(data@, sample_mean(data@)) <= u64::MAX,
    ensures
        r == sample_variance(data@),
{
    if data.len() == 0 {
        return 0;
    }
    let mean = mean_of(data);
    let mut total: u64 = 0;
    let mut i: usize = 0;
    while i < data.len()
        invariant
            0 <= i <= data@.len(),
            mean == sample_mean(data@),
            deviation_sum(data@, mean as int) <= u64::MAX,
            total == deviation_sum(data@.subrange(0, i as int), mean as int),
        decreases data@.len() - i,
    {
        let ghost prefix = data@.subrange(0, i + 1);
        assert(prefix.drop_last() =~= data@.subrange(0, i as int));
        proof {
            lemma_prefix_deviation_bounded(data@, mean as int, i + 1);
        }
        let x = data[i];
        let d = if x >= mean {
            x - mean
        } else {
            mean - x
        };
        assert(d * d <= 0xffff_ffff_ffff_ffff * 0xffff_ffff_ffff_ffff) by (nonlinear_arith)
            requires
                d <= 0xffff_ffff_ffff_ffff,
        ;
        let wide: u128 = d as u128 * d as u128;
        let sq = (wide % 0x1_0000_0000_0000_0000) as u64;
        total = total + sq;
        i = i + 1;
    }
    assert(data@.subrange(0, data@.len() as int) =~= data@);
    total / (data.len() as u64)
}

fn historical_consistency(h: &[u64]) -> (r: u32)
    requires
        sample_sum(h@) <= u64::MAX,
        deviation_sum(h@, sample_mean(h@)) <= u64::MAX,
    ensures
        r == consistency_score(h@),
        300 <= r <= 700,
{
    if h.len() == 0 {
        return 500;
    }
    proof {
        lemma_deviation_sum_nonneg(h@, sample_mean(h@));
    }
    let v = variance(h);
    let capped: u64 = if v > 1_000_000 {
        1_000_000
    } else {
        v
    };
    let score = 700u32.saturating_sub((capped / 100) as u32);
    if score < 300 {
        300
    } else {
        score
    }
}

fn anomaly_detection(pattern: &[u8], historical: &[u64]) -> (r: u32)
    requires
        byte_sum(pattern@) <= u32::MAX,
        sample_sum(historical@) <= u64::MAX,
        10 * sample_mean(historical@) <= u64::MAX,
    ensures
        r == anomaly_score(pattern@, historical@),
        450 <= r <= 700,
{
    let mut pattern_sum: u32 = 0;
    let mut i: usize = 0;
    while i < pattern.len()
        invariant
            0 <= i <= pattern@.len(),
            byte_sum(pattern@) <= u32::MAX,
            pattern_sum == byte_sum(pattern@.subrange(0, i as int)),
        decreases pattern@.len() - i,
    {
        let ghost prefix = pattern@.subrange(0, i + 1);
        assert(prefix.drop_last() =~= pattern@.subrange(0, i as int));
        proof {
            lemma_prefix_byte_sum_bounded(pattern@, i + 1);
        }
        pattern_sum = pattern_sum + pattern[i] as u32;
        i = i + 1;
    }
    assert(pattern@.subrange(0, pattern@.len() as int) =~= pattern@);
    let hist_avg = mean_of(historical);
    let target = hist_avg * 10;
    let ps = pattern_sum as u64;
    let anomaly = if ps >= target {
        ps - target
    } else {
        target - ps
    };
    if anomaly < 100 {
        700
    } else if anomaly < 1000 {
        600
    } else {
        450
    }
}

} // verus!
