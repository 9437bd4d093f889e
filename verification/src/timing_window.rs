//! The integer side of the live timing window: how far the output ran ahead of the
//! device, the histogram of render load per block, and its nearest-rank percentile.
//! The load of a block is measured outside, from clock readings.
use vstd::prelude::*;

verus! {

/// Load buckets: whole percent from 0 to 500.
pub const LOAD_BUCKETS: usize = 501;

/// The sum of a histogram's counts.
pub open spec fn total_of(histogram: Seq<u64>) -> int
    decreases histogram.len(),
{
    if histogram.len() == 0 {
        0
    } else {
        total_of(histogram.drop_last()) + histogram.last()
    }
}

/// The count of `percent` percent of `total` observations, rounded up: the rank of
/// the nearest-rank percentile.
pub open spec fn rank_target(total: int, percent: int) -> int {
    (total * percent + 99) / 100
}

proof fn lemma_total_prefix(histogram: Seq<u64>, i: int)
    requires
        0 <= i < histogram.len(),
    ensures
        total_of(histogram.take(i + 1)) == total_of(histogram.take(i)) + histogram[i],
{
    assert(histogram.take(i + 1).drop_last() =~= histogram.take(i));
}

proof fn lemma_total_monotone(histogram: Seq<u64>, i: int, j: int)
    requires
        0 <= i <= j <= histogram.len(),
    ensures
        total_of(histogram.take(i)) <= total_of(histogram.take(j)),
    decreases j - i,
{
    if i < j {
        lemma_total_monotone(histogram, i, j - 1);
        lemma_total_prefix(histogram, j - 1);
    }
}

/// The sum of a histogram's counts, which must fit in a `u64`.
pub fn histogram_total(histogram: &Vec<u64>) -> (total: u64)
    requires
        total_of(histogram@) <= u64::MAX,
    ensures
        total == total_of(histogram@),
{
    let mut total: u64 = 0;
    let mut i: usize = 0;
    while i < histogram.len()
        invariant
            0 <= i <= histogram@.len(),
            total == total_of(histogram@.take(i as int)),
            total_of(histogram@) <= u64::MAX,
        decreases histogram@.len() - i,
    {
        proof {
            lemma_total_prefix(histogram@, i as int);
            lemma_total_monotone(histogram@, i + 1, histogram@.len() as int);
            assert(histogram@.take(histogram@.len() as int) =~= histogram@);
        }
        total = total + histogram[i];
        i = i + 1;
    }
    assert(histogram@.take(i as int) =~= histogram@);
    total
}

/// `bucket` is the nearest-rank `percent` percentile of `histogram`: the first bucket
/// at which the running count reaches the rank, and 0 when nothing was counted.
pub open spec fn is_percentile(histogram: Seq<u64>, percent: int, bucket: usize) -> bool {
    &&& total_of(histogram) == 0 ==> bucket == 0
    &&& total_of(histogram) > 0 ==> {
        let target = rank_target(total_of(histogram), percent);
        &&& bucket < histogram.len()
        &&& total_of(histogram.take(bucket + 1)) >= target
        &&& forall|b: int| 0 <= b < bucket ==> #[trigger] total_of(histogram.take(b + 1)) < target
    }
}

/// The nearest-rank `percent` percentile of the histogram: the first bucket at which
/// the running count reaches the rank, and 0 for an empty histogram.
pub fn percentile(histogram: &Vec<u64>, percent: u64) -> (bucket: usize)
    requires
        percent <= 100,
        total_of(histogram@) <= u64::MAX,
    ensures
        is_percentile(histogram@, percent as int, bucket),
{
    let total = histogram_total(histogram);
    if total == 0 {
        return 0;
    }
    assert(total * percent <= 0xffff_ffff_ffff_ffffu128 * 100) by (nonlinear_arith)
        requires
            total <= 0xffff_ffff_ffff_ffffu64,
            percent <= 100,
    ;
    let wide: u128 = total as u128 * percent as u128 + 99;
    let target: u128 = wide / 100;
    assert(target == rank_target(total as int, percent as int));
    assert(target <= total) by (nonlinear_arith)
        requires
            target == (total * percent + 99) / 100,
            percent <= 100,
            total > 0,
    ;
    let mut accumulated: u64 = 0;
    let mut i: usize = 0;
    while i < histogram.len()
        invariant
            0 <= i <= histogram@.len(),
            accumulated == total_of(histogram@.take(i as int)),
            total == total_of(histogram@),
            total > 0,
            target == rank_target(total as int, percent as int),
            target <= total,
            total_of(histogram@) <= u64::MAX,
            forall|b: int| 0 <= b < i ==> #[trigger] total_of(histogram@.take(b + 1)) < target,
        decreases histogram@.len() - i,
    {
        proof {
            lemma_total_prefix(histogram@, i as int);
            lemma_total_monotone(histogram@, i + 1, histogram@.len() as int);
            assert(histogram@.take(histogram@.len() as int) =~= histogram@);
        }
        accumulated = accumulated + histogram[i];
        if accumulated as u128 >= target {
            return i;
        }
        i = i + 1;
    }
    assert(histogram@.take(i as int) =~= histogram@);
    assert(total_of(histogram@.take((i - 1) + 1)) < target);
    assert(false);
    histogram.len() - 1
}

/// The lowest and highest output lead seen in a window.
#[derive(Clone, Copy, Debug, PartialEq, Eq, Structural)]
pub struct LeadRange {
    pub min: u64,
    pub max: u64,
}

impl LeadRange {
    /// Nothing seen yet.
    pub fn new() -> (range: LeadRange)
        ensures
            range.min == u64::MAX,
            range.max == 0,
    {
        LeadRange { min: u64::MAX, max: 0 }
    }

    /// Takes one block's lead into the range.
    pub fn observe(&mut self, lead: u64)
        ensures
            final(self).min == (if lead < old(self).min {
                lead
            } else {
                old(self).min
            }),
            final(self).max == (if lead > old(self).max {
                lead
            } else {
                old(self).max
            }),
    {
        if lead < self.min {
            self.min = lead;
        }
        if lead > self.max {
            self.max = lead;
        }
    }

    /// The lowest lead as published: 0 when no block was seen.
    pub fn published_min(&self) -> (min: u64)
        ensures
            min == (if self.min == u64::MAX {
                0
            } else {
                self.min
            }),
    {
        if self.min != u64::MAX {
            self.min
        } else {
            0
        }
    }
}

/// Counts one block of load `bucket` percent, clamped to the last bucket; a count
/// that reached its limit stays there.
pub fn count_load(histogram: &mut Vec<u64>, bucket: usize)
    requires
        old(histogram)@.len() == LOAD_BUCKETS,
    ensures
        ({
            let b = if bucket < LOAD_BUCKETS {
                bucket as int
            } else {
                LOAD_BUCKETS - 1
            };
            final(histogram)@ == old(histogram)@.update(
                b,
                if old(histogram)@[b] == u64::MAX {
                    u64::MAX
                } else {
                    (old(histogram)@[b] + 1) as u64
                },
            )
        }),
{
    let b = if bucket < LOAD_BUCKETS {
        bucket
    } else {
        LOAD_BUCKETS - 1
    };
    let count = histogram[b].saturating_add(1);
    histogram.set(b, count);
}

/// Counting one more in a bucket adds one to the total.
proof fn lemma_total_count(histogram: Seq<u64>, b: int)
    requires
        0 <= b < histogram.len(),
        histogram[b] < u64::MAX,
    ensures
        total_of(histogram.update(b, (histogram[b] + 1) as u64)) == total_of(histogram) + 1,
    decreases histogram.len(),
{
    let counted = histogram.update(b, (histogram[b] + 1) as u64);
    if b == histogram.len() - 1 {
        assert(counted.drop_last() =~= histogram.drop_last());
    } else {
        assert(counted.drop_last() =~= histogram.drop_last().update(b, (histogram[b] + 1) as u64));
        lemma_total_count(histogram.drop_last(), b);
    }
}

/// No count exceeds the total.
proof fn lemma_count_within_total(histogram: Seq<u64>, b: int)
    requires
        0 <= b < histogram.len(),
    ensures
        histogram[b] <= total_of(histogram),
    decreases histogram.len(),
{
    lemma_total_nonnegative(histogram.drop_last());
    if b < histogram.len() - 1 {
        lemma_count_within_total(histogram.drop_last(), b);
    }
}

proof fn lemma_total_nonnegative(histogram: Seq<u64>)
    ensures
        total_of(histogram) >= 0,
    decreases histogram.len(),
{
    if histogram.len() > 0 {
        lemma_total_nonnegative(histogram.drop_last());
    }
}

proof fn lemma_total_zeros(n: nat)
    ensures
        total_of(Seq::new(n, |i: int| 0u64)) == 0,
    decreases n,
{
    if n > 0 {
        assert(Seq::new(n, |i: int| 0u64).drop_last() =~= Seq::new((n - 1) as nat, |i: int| 0u64));
        lemma_total_zeros((n - 1) as nat);
    }
}

/// How long a timing window lasts.
pub const WINDOW_MS: u64 = 5000;

/// What one closed window reports, beside what the event placements and the float
/// load maximum add outside.
#[derive(Clone, Copy, Debug, PartialEq, Eq, Structural)]
pub struct WindowMetrics {
    /// How long the window ran.
    pub window_ms: u64,
    /// The lowest output lead, 0 when no block was seen.
    pub output_lead_min_frames: u64,
    pub output_lead_max_frames: u64,
    /// The 95th percentile of the load, in whole percent.
    pub process_load_p95: usize,
}

/// The live timing window: when it started, the output leads seen and the load
/// histogram of the blocks rendered since.
pub struct TimingWindow {
    pub started_ms: u64,
    pub lead: LeadRange,
    pub load_histogram: Vec<u64>,
    /// Blocks observed in this window.
    pub blocks: u64,
}

impl TimingWindow {
    pub open spec fn wf(&self) -> bool {
        &&& self.load_histogram@.len() == LOAD_BUCKETS
        &&& total_of(self.load_histogram@) == self.blocks
    }

    /// A window that starts at `now_ms` with nothing seen.
    pub fn new(now_ms: u64) -> (window: TimingWindow)
        ensures
            window.wf(),
            window.started_ms == now_ms,
            window.lead == (LeadRange { min: u64::MAX, max: 0 }),
            window.blocks == 0,
            window.load_histogram@ == Seq::new(LOAD_BUCKETS as nat, |i: int| 0u64),
    {
        let mut load_histogram: Vec<u64> = Vec::new();
        while load_histogram.len() < LOAD_BUCKETS
            invariant
                load_histogram@.len() <= LOAD_BUCKETS,
                forall|i: int| 0 <= i < load_histogram@.len() ==> #[trigger] load_histogram@[i] == 0,
            decreases LOAD_BUCKETS - load_histogram@.len(),
        {
            load_histogram.push(0);
        }
        proof {
            assert(load_histogram@ =~= Seq::new(LOAD_BUCKETS as nat, |i: int| 0u64));
            lemma_total_zeros(LOAD_BUCKETS as nat);
        }
        TimingWindow { started_ms: now_ms, lead: LeadRange::new(), load_histogram, blocks: 0 }
    }

    /// Takes one rendered block: the output's lead over the device, and its load in
    /// whole percent (clamped to the last bucket).
    pub fn observe_block(&mut self, lead: u64, load_bucket: usize)
        requires
            old(self).wf(),
            old(self).blocks < u64::MAX,
        ensures
            final(self).wf(),
            final(self).started_ms == old(self).started_ms,
            final(self).blocks == old(self).blocks + 1,
            final(self).lead.min == (if lead < old(self).lead.min {
                lead
            } else {
                old(self).lead.min
            }),
            final(self).lead.max == (if lead > old(self).lead.max {
                lead
            } else {
                old(self).lead.max
            }),
            ({
                let b = if load_bucket < LOAD_BUCKETS {
                    load_bucket as int
                } else {
                    LOAD_BUCKETS - 1
                };
                final(self).load_histogram@ == old(self).load_histogram@.update(
                    b,
                    (old(self).load_histogram@[b] + 1) as u64,
                )
            }),
    {
        self.lead.observe(lead);
        let b: usize = if load_bucket < LOAD_BUCKETS {
            load_bucket
        } else {
            LOAD_BUCKETS - 1
        };
        proof {
            lemma_count_within_total(self.load_histogram@, b as int);
            lemma_total_count(self.load_histogram@, b as int);
        }
        count_load(&mut self.load_histogram, load_bucket);
        self.blocks = self.blocks + 1;
    }

    /// Closes the window once it has run `WINDOW_MS` at `now_ms`: reports it and
    /// starts a new one at `now_ms`. Before that, nothing changes.
    pub fn take_window_if_due(&mut self, now_ms: u64) -> (metrics: Option<WindowMetrics>)
        requires
            old(self).wf(),
        ensures
            final(self).wf(),
            now_ms < old(self).started_ms || now_ms - old(self).started_ms < WINDOW_MS ==> metrics
                is None && *final(self) == *old(self),
            now_ms >= old(self).started_ms && now_ms - old(self).started_ms >= WINDOW_MS ==> {
                &&& metrics matches Some(m) && m.window_ms == now_ms - old(self).started_ms
                    && m.output_lead_min_frames == (if old(self).lead.min == u64::MAX {
                    0
                } else {
                    old(self).lead.min
                }) && m.output_lead_max_frames == old(self).lead.max && is_percentile(
                    old(self).load_histogram@,
                    95,
                    m.process_load_p95,
                )
                &&& final(self).started_ms == now_ms
                &&& final(self).lead == (LeadRange { min: u64::MAX, max: 0 })
                &&& final(self).blocks == 0
                &&& final(self).load_histogram@ == Seq::new(LOAD_BUCKETS as nat, |i: int| 0u64)
            },
    {
        if now_ms < self.started_ms || now_ms - self.started_ms < WINDOW_MS {
            return None;
        }
        let metrics = WindowMetrics {
            window_ms: now_ms - self.started_ms,
            output_lead_min_frames: self.lead.published_min(),
            output_lead_max_frames: self.lead.max,
            process_load_p95: percentile(&self.load_histogram, 95),
        };
        *self = TimingWindow::new(now_ms);
        Some(metrics)
    }
}

} // verus!
