//! A level detector that reports the peak amplitude together with a
//! block-cached RMS amplitude over a sliding window.
//!
//! Incoming samples are grouped into fixed-size blocks; each completed block
//! contributes one sum-of-squares entry to a fixed-capacity queue whose oldest
//! entry is evicted (and subtracted from the running total) when a new one
//! arrives at capacity. The RMS is emitted only once the queue is full, so a
//! full window of history stands behind every reported value. The window is
//! the nominal 0.3 s, rounded to the nearest sample and then floored to a
//! whole number of blocks: that drift from the target is the price of O(1)
//! amortized per-sample cost, by design.

use vstd::prelude::*;

use crate::abs_val;
use crate::block_queue::cq_clear;
use crate::block_queue::cq_is_full;
use crate::block_queue::cq_push;
use crate::block_queue::cq_with_capacity;
use crate::block_queue::queue_capacity;
use crate::block_queue::queue_items;
use crate::db_meter::peak::abs_max;
use crate::db_meter::peak::calc_peak;
use crate::db_meter::DetectorOutput;
use crate::ring_channel::RingChannel;

verus! {

/// Largest block size the detector accepts; keeps every per-block
/// sum-of-squares well inside `u64`.
pub const RMS_MAX_BLOCK_SIZE: usize = 0x100_0000;

/// Largest possible square of one sample (`i16::MIN` squared).
pub const SAMPLE_SQ_MAX: u64 = 0x4000_0000;

/// The square of a sample, as a mathematical integer.
pub open spec fn square(x: i16) -> int {
    (x as int) * (x as int)
}

/// Sum of a sequence of block entries.
pub open spec fn seq_sum(s: Seq<u64>) -> int
    decreases s.len(),
{
    if s.len() == 0 {
        0
    } else {
        seq_sum(s.drop_last()) + s.last()
    }
}

/// The integer square root, rounded down; `0` for negative arguments.
pub open spec fn sqrt_floor(x: int) -> int
    decreases (if x <= 0 {
        0
    } else {
        x
    }),
{
    if x <= 0 {
        0
    } else {
        let r = sqrt_floor(x - 1);
        if (r + 1) * (r + 1) <= x {
            r + 1
        } else {
            r
        }
    }
}

/// The mathematical state of one channel's RMS accumulator: the cached block
/// sums (oldest first), and the sample count and running sum-of-squares of the
/// block still being filled.
pub struct RmsModel {
    /// Sum-of-squares of each completed block still in the window.
    pub blocks: Seq<u64>,
    /// Samples accumulated toward the next block.
    pub partial_count: int,
    /// Sum-of-squares of those samples.
    pub partial_sq: int,
}

/// A freshly reset accumulator.
pub open spec fn empty_model() -> RmsModel {
    RmsModel { blocks: Seq::empty(), partial_count: 0, partial_sq: 0 }
}

/// Appending to the block cache: below capacity the entry is appended, at
/// capacity the oldest is evicted.
pub open spec fn push_evicting(blocks: Seq<u64>, x: u64, cap: int) -> Seq<u64> {
    if blocks.len() < cap {
        blocks.push(x)
    } else {
        blocks.skip(1).push(x)
    }
}

/// One sample entering the accumulator.
pub open spec fn feed_one(m: RmsModel, x: i16, block_size: int, cap: int) -> RmsModel {
    let sq = m.partial_sq + square(x);
    if m.partial_count + 1 == block_size {
        RmsModel { blocks: push_evicting(m.blocks, sq as u64, cap), partial_count: 0, partial_sq: 0 }
    } else {
        RmsModel { blocks: m.blocks, partial_count: m.partial_count + 1, partial_sq: sq }
    }
}

/// A batch of samples entering the accumulator, in order.
pub open spec fn feed_all(m: RmsModel, input: Seq<i16>, block_size: int, cap: int) -> RmsModel
    decreases input.len(),
{
    if input.len() == 0 {
        m
    } else {
        feed_one(feed_all(m, input.drop_last(), block_size, cap), input.last(), block_size, cap)
    }
}

/// Whether a batch of `n` samples completes at least one block when the
/// accumulator already holds `partial_count` samples.
pub open spec fn completes_a_block(partial_count: int, n: int, block_size: int) -> bool {
    partial_count + n >= block_size
}

/// One channel's RMS state: the block cache, its running total, and the
/// partially filled block.
pub struct RmsCache {
    block_cache: circular_queue::CircularQueue<u64>,
    block_sum: u64,
    staged_count: usize,
    staged_sq: u64,
}

impl RmsCache {
    /// The mathematical accumulator this cache realises.
    pub closed spec fn model(&self) -> RmsModel {
        RmsModel {
            blocks: queue_items(self.block_cache),
            partial_count: self.staged_count as int,
            partial_sq: self.staged_sq as int,
        }
    }

    /// Internal consistency: the running total equals the sum of the cached
    /// blocks, and every count and sum is within its block-size budget.
    pub closed spec fn wf(&self, block_size: int, cap: int) -> bool {
        &&& queue_capacity(self.block_cache) == cap
        &&& queue_items(self.block_cache).len() <= cap
        &&& self.block_sum == seq_sum(queue_items(self.block_cache))
        &&& self.staged_count < block_size
        &&& self.staged_sq <= self.staged_count * (SAMPLE_SQ_MAX as int)
        &&& forall|k: int|
            0 <= k < queue_items(self.block_cache).len() ==> queue_items(self.block_cache)[k]
                <= block_size * (SAMPLE_SQ_MAX as int)
    }
}

/// The square of one sample, computed exactly.
fn sample_square(x: i16) -> (r: u64)
    ensures
        r == square(x),
        r <= SAMPLE_SQ_MAX,
{
    proof {
        assert(0 <= (x as int) * (x as int) <= SAMPLE_SQ_MAX) by (nonlinear_arith)
            requires
                -0x8000 <= x as int <= 0x7fff,
        {}
    }
    ((x as i64) * (x as i64)) as u64
}

/// Every entry sum is nonnegative.
proof fn lemma_seq_sum_nonneg(s: Seq<u64>)
    ensures
        seq_sum(s) >= 0,
    decreases s.len(),
{
    if s.len() > 0 {
        lemma_seq_sum_nonneg(s.drop_last());
    }
}

/// The sum splits off the oldest entry.
proof fn lemma_seq_sum_skip_first(s: Seq<u64>)
    requires
        s.len() > 0,
    ensures
        seq_sum(s) == s[0] + seq_sum(s.skip(1)),
    decreases s.len(),
{
    if s.len() == 1 {
        assert(s.skip(1) =~= Seq::<u64>::empty());
        assert(s.drop_last() =~= Seq::<u64>::empty());
    } else {
        lemma_seq_sum_skip_first(s.drop_last());
        assert(s.skip(1).drop_last() =~= s.drop_last().skip(1));
        assert(s.skip(1).last() == s.last());
    }
}

/// A uniform bound on the entries bounds the sum.
proof fn lemma_seq_sum_bounded(s: Seq<u64>, b: int)
    requires
        forall|k: int| 0 <= k < s.len() ==> s[k] <= b,
        b >= 0,
    ensures
        seq_sum(s) <= s.len() * b,
    decreases s.len(),
{
    if s.len() > 0 {
        lemma_seq_sum_bounded(s.drop_last(), b);
        assert(seq_sum(s) <= (s.len() - 1) * b + b) by (nonlinear_arith)
            requires
                seq_sum(s) == seq_sum(s.drop_last()) + s.last(),
                seq_sum(s.drop_last()) <= (s.len() - 1) * b,
                s.last() <= b,
        {}
        assert((s.len() - 1) * b + b == s.len() * b) by (nonlinear_arith) {}
    }
}

/// The rounded-down square root is the unique `r` with
/// `r * r <= x < (r + 1) * (r + 1)`.
proof fn lemma_sqrt_floor_bounds(x: int)
    requires
        x >= 0,
    ensures
        sqrt_floor(x) >= 0,
        sqrt_floor(x) * sqrt_floor(x) <= x,
        (sqrt_floor(x) + 1) * (sqrt_floor(x) + 1) > x,
    decreases x,
{
    if x > 0 {
        lemma_sqrt_floor_bounds(x - 1);
        let r = sqrt_floor(x - 1);
        if (r + 1) * (r + 1) <= x {
            assert((r + 2) * (r + 2) > x) by (nonlinear_arith)
                requires
                    r >= 0,
                    (r + 1) * (r + 1) > x - 1,
            {}
        }
    }
}

/// Any `r` within the square-root bracket is the rounded-down square root.
proof fn lemma_sqrt_floor_unique(x: int, r: int)
    requires
        x >= 0,
        r >= 0,
        r * r <= x,
        (r + 1) * (r + 1) > x,
    ensures
        r == sqrt_floor(x),
{
    lemma_sqrt_floor_bounds(x);
    let s = sqrt_floor(x);
    assert(r == s) by (nonlinear_arith)
        requires
            r >= 0,
            s >= 0,
            r * r <= x,
            (r + 1) * (r + 1) > x,
            s * s <= x,
            (s + 1) * (s + 1) > x,
    {}
}

/// The integer square root, rounded down, by bisection.
pub fn isqrt64(x: u64) -> (r: u64)
    ensures
        r == sqrt_floor(x as int),
        r * r <= x,
{
    let mut lo: u64 = 0;
    let mut hi: u64 = 0x1_0000_0000;
    proof {
        assert((0x1_0000_0000u64 as int) * (0x1_0000_0000u64 as int) > x as int) by (nonlinear_arith) {}
    }
    while hi - lo > 1
        invariant
            lo < hi,
            hi <= 0x1_0000_0000,
            (lo as int) * (lo as int) <= x as int,
            (hi as int) * (hi as int) > x as int,
        decreases hi - lo,
    {
        let mid = lo + (hi - lo) / 2;
        proof {
            assert((mid as int) * (mid as int) <= 0x1_0000_0000_0000_0000) by (nonlinear_arith)
                requires
                    0 <= mid as int <= 0x1_0000_0000,
            {}
        }
        if (mid as u128) * (mid as u128) <= x as u128 {
            lo = mid;
        } else {
            hi = mid;
        }
    }
    proof {
        lemma_sqrt_floor_unique(x as int, lo as int);
    }
    lo
}

/// One sample entering a channel's cache, mirroring [`feed_one`] exactly.
fn feed_sample(cache: &mut RmsCache, x: i16, block_size: usize, block_count: usize)
    requires
        old(cache).wf(block_size as int, block_count as int),
        1 <= block_size <= RMS_MAX_BLOCK_SIZE,
        1 <= block_count,
        block_size * block_count <= 0x8000_0000,
    ensures
        final(cache).wf(block_size as int, block_count as int),
        final(cache).model() == feed_one(
            old(cache).model(),
            x,
            block_size as int,
            block_count as int,
        ),
{
    let sq = sample_square(x);
    proof {
        assert(cache.staged_sq as int + sq as int <= block_size as int * (SAMPLE_SQ_MAX as int))
            by (nonlinear_arith)
            requires
                cache.staged_sq as int <= cache.staged_count as int * (SAMPLE_SQ_MAX as int),
                sq as int <= SAMPLE_SQ_MAX as int,
                cache.staged_count as int <= block_size as int - 1,
        {}
        assert(block_size as int * (SAMPLE_SQ_MAX as int) <= 0x8000_0000 * 0x4000_0000)
            by (nonlinear_arith)
            requires
                0 <= block_size as int <= 0x8000_0000,
        {}
    }
    let new_sq = cache.staged_sq + sq;
    if cache.staged_count + 1 == block_size {
        let ghost old_items = queue_items(cache.block_cache);
        proof {
            lemma_seq_sum_nonneg(old_items);
            if old_items.len() >= block_count {
                lemma_seq_sum_skip_first(old_items);
                lemma_seq_sum_nonneg(old_items.skip(1));
            }
        }
        let evicted = cq_push(&mut cache.block_cache, new_sq);
        if let Some(e) = evicted {
            cache.block_sum = cache.block_sum - e;
        }
        proof {
            let items = queue_items(cache.block_cache);
            if old_items.len() < block_count {
                assert(items.drop_last() =~= old_items);
            } else {
                assert(items.drop_last() =~= old_items.skip(1));
            }
            assert(cache.block_sum as int + new_sq as int == seq_sum(items));
            lemma_seq_sum_nonneg(items.drop_last());
            assert(forall|k: int|
                0 <= k < items.len() ==> items[k] <= block_size as int * (SAMPLE_SQ_MAX as int));
            lemma_seq_sum_bounded(items, block_size as int * (SAMPLE_SQ_MAX as int));
            assert(items.len() * (block_size as int * (SAMPLE_SQ_MAX as int)) <= block_count as int
                * (block_size as int * (SAMPLE_SQ_MAX as int))) by (nonlinear_arith)
                requires
                    0 <= items.len() <= block_count as int,
                    block_size as int * (SAMPLE_SQ_MAX as int) >= 0,
            {}
            assert(block_count as int * (block_size as int * (SAMPLE_SQ_MAX as int)) == (
            block_size as int * block_count as int) * (SAMPLE_SQ_MAX as int)) by (nonlinear_arith) {}
            assert((block_size as int * block_count as int) * (SAMPLE_SQ_MAX as int) <= 0x8000_0000
                * 0x4000_0000) by (nonlinear_arith)
                requires
                    0 <= block_size as int * block_count as int <= 0x8000_0000,
            {}
        }
        cache.block_sum = cache.block_sum + new_sq;
        cache.staged_count = 0;
        cache.staged_sq = 0;
    } else {
        cache.staged_count = cache.staged_count + 1;
        cache.staged_sq = new_sq;
    }
}

/// Feeds a frame's batch (as the ring's two segments) through one channel's
/// cache, and reports the RMS amplitude if this batch completed a block while
/// the cache holds a full window: `sqrt(sum of the window's squares / window)`
/// rounded down, in sample units. Otherwise `None`: not enough history yet, or
/// nothing new finished.
fn rms_feed(
    cache: &mut RmsCache,
    s1: &[i16],
    s2: &[i16],
    block_size: usize,
    block_count: usize,
    window: usize,
) -> (bar: Option<i32>)
    requires
        old(cache).wf(block_size as int, block_count as int),
        1 <= block_size <= RMS_MAX_BLOCK_SIZE,
        1 <= block_count,
        window == block_size * block_count,
        window <= 0x8000_0000,
    ensures
        final(cache).wf(block_size as int, block_count as int),
        final(cache).model() == feed_all(
            old(cache).model(),
            s1@ + s2@,
            block_size as int,
            block_count as int,
        ),
        ({
            let m1 = feed_all(old(cache).model(), s1@ + s2@, block_size as int, block_count as int);
            if completes_a_block(
                old(cache).model().partial_count,
                s1@.len() + s2@.len() as int,
                block_size as int,
            ) && m1.blocks.len() == block_count {
                bar == Some(sqrt_floor(seq_sum(m1.blocks) / (window as int)) as i32)
            } else {
                bar is None
            }
        }),
{
    let ghost m0 = cache.model();
    let ghost all = s1@ + s2@;
    let staged_before = cache.staged_count;

    let mut i: usize = 0;
    while i < s1.len()
        invariant
            i <= s1@.len(),
            all == s1@ + s2@,
            1 <= block_size <= RMS_MAX_BLOCK_SIZE,
            1 <= block_count,
            block_size * block_count <= 0x8000_0000,
            cache.wf(block_size as int, block_count as int),
            cache.model() == feed_all(m0, all.take(i as int), block_size as int, block_count as int),
        decreases s1@.len() - i,
    {
        feed_sample(cache, *vstd::slice::slice_index_get(s1, i), block_size, block_count);
        i = i + 1;
        proof {
            assert(all.take(i as int).drop_last() =~= all.take(i - 1));
        }
    }
    let mut j: usize = 0;
    while j < s2.len()
        invariant
            j <= s2@.len(),
            all == s1@ + s2@,
            1 <= block_size <= RMS_MAX_BLOCK_SIZE,
            1 <= block_count,
            block_size * block_count <= 0x8000_0000,
            cache.wf(block_size as int, block_count as int),
            cache.model() == feed_all(
                m0,
                all.take(s1@.len() + j),
                block_size as int,
                block_count as int,
            ),
        decreases s2@.len() - j,
    {
        feed_sample(cache, *vstd::slice::slice_index_get(s2, j), block_size, block_count);
        j = j + 1;
        proof {
            assert(all.take(s1@.len() + j).drop_last() =~= all.take(s1@.len() + j - 1));
        }
    }
    proof {
        assert(all.take(all.len() as int) =~= all);
    }

    let completed = if s1.len() >= block_size || s2.len() >= block_size {
        true
    } else {
        staged_before + s1.len() + s2.len() >= block_size
    };
    if completed && cq_is_full(&cache.block_cache) {
        proof {
            let items = queue_items(cache.block_cache);
            lemma_seq_sum_bounded(items, block_size as int * (SAMPLE_SQ_MAX as int));
            assert(items.len() * (block_size as int * (SAMPLE_SQ_MAX as int)) == window as int * (
            SAMPLE_SQ_MAX as int)) by (nonlinear_arith)
                requires
                    items.len() == block_count as int,
                    window as int == block_size as int * block_count as int,
            {}
            assert(window as int >= 1) by (nonlinear_arith)
                requires
                    window as int == block_size as int * block_count as int,
                    block_size as int >= 1,
                    block_count as int >= 1,
            {}
            vstd::arithmetic::div_mod::lemma_div_is_ordered(
                cache.block_sum as int,
                window as int * (SAMPLE_SQ_MAX as int),
                window as int,
            );
            vstd::arithmetic::div_mod::lemma_div_multiples_vanish(
                SAMPLE_SQ_MAX as int,
                window as int,
            );
        }
        let mean = cache.block_sum / (window as u64);
        let r = isqrt64(mean);
        proof {
            assert(r <= 0x8000) by (nonlinear_arith)
                requires
                    (r as int) * (r as int) <= mean as int,
                    mean as int <= SAMPLE_SQ_MAX as int,
                    r >= 0,
            {}
        }
        Some(r as i32)
    } else {
        None
    }
}

/// A level detector carrying, per channel, a block-cached sliding-window RMS
/// accumulator beside the running peak.
pub struct PeakRmsDetector {
    block_size: usize,
    block_count: usize,
    rms_window_size: usize,
    sample_rate: u32,
    left_rms_cache: Option<RmsCache>,
    right_rms_cache: Option<RmsCache>,
}

impl PeakRmsDetector {
    /// The RMS block size chosen at construction.
    pub closed spec fn block_size_spec(&self) -> int {
        self.block_size as int
    }

    /// The number of blocks in the sliding window.
    pub closed spec fn block_count_spec(&self) -> int {
        self.block_count as int
    }

    /// The window length in samples: a whole number of blocks.
    pub closed spec fn window(&self) -> int {
        self.rms_window_size as int
    }

    /// The sample rate the window was derived from.
    pub closed spec fn sample_rate_spec(&self) -> int {
        self.sample_rate as int
    }

    /// The left channel's accumulator, if the window allows one.
    pub closed spec fn left_model(&self) -> Option<RmsModel> {
        match self.left_rms_cache {
            Some(c) => Some(c.model()),
            None => None,
        }
    }

    /// The right channel's accumulator, if the window allows one.
    pub closed spec fn right_model(&self) -> Option<RmsModel> {
        match self.right_rms_cache {
            Some(c) => Some(c.model()),
            None => None,
        }
    }

    /// Internal consistency of the configuration and both caches.
    pub closed spec fn wf(&self) -> bool {
        &&& 1 <= self.block_size <= RMS_MAX_BLOCK_SIZE
        &&& self.rms_window_size == self.block_size * self.block_count
        &&& self.rms_window_size <= 0x8000_0000
        &&& (self.left_rms_cache is Some <==> self.block_count >= 1)
        &&& (self.right_rms_cache is Some <==> self.block_count >= 1)
        &&& (self.left_rms_cache is Some ==> self.left_rms_cache->0.wf(
            self.block_size as int,
            self.block_count as int,
        ))
        &&& (self.right_rms_cache is Some ==> self.right_rms_cache->0.wf(
            self.block_size as int,
            self.block_count as int,
        ))
    }

    /// Creates a detector that groups samples into blocks of `block_size`.
    /// No RMS is produced until a sample rate is set.
    pub fn new(block_size: usize) -> (d: PeakRmsDetector)
        requires
            1 <= block_size <= RMS_MAX_BLOCK_SIZE,
        ensures
            d.wf(),
            d.block_size_spec() == block_size,
            d.window() == 0,
            d.sample_rate_spec() == 0,
            d.left_model() is None,
            d.right_model() is None,
    {
        PeakRmsDetector {
            block_size,
            block_count: 0,
            rms_window_size: 0,
            sample_rate: 0,
            left_rms_cache: None,
            right_rms_cache: None,
        }
    }

    /// Adopts a new sample rate: the window becomes the nominal 0.3 s worth
    /// of samples (rounded to the nearest sample) floored to a whole number
    /// of blocks, and both channels' accumulated history is discarded, since
    /// it is meaningless at the new rate. An unchanged rate is a no-op.
    pub fn update_sample_rate(&mut self, sample_rate: u32)
        requires
            old(self).wf(),
        ensures
            final(self).wf(),
            final(self).block_size_spec() == old(self).block_size_spec(),
            sample_rate == old(self).sample_rate_spec() ==> *final(self) == *old(self),
            sample_rate != old(self).sample_rate_spec() ==> {
                &&& final(self).sample_rate_spec() == sample_rate
                &&& final(self).block_count_spec() == ((3 * sample_rate as int + 5) / 10)
                    / old(self).block_size_spec()
                &&& final(self).window() == final(self).block_size_spec()
                    * final(self).block_count_spec()
                &&& final(self).left_model() == (if final(self).block_count_spec() >= 1 {
                    Some(empty_model())
                } else {
                    None::<RmsModel>
                })
                &&& final(self).right_model() == (if final(self).block_count_spec() >= 1 {
                    Some(empty_model())
                } else {
                    None::<RmsModel>
                })
            },
    {
        if sample_rate != self.sample_rate {
            self.sample_rate = sample_rate;
            let target = ((3u64 * sample_rate as u64 + 5) / 10) as usize;
            let block_count = target / self.block_size;
            proof {
                vstd::arithmetic::div_mod::lemma_fundamental_div_mod(
                    target as int,
                    self.block_size as int,
                );
                assert(self.block_size as int * block_count as int <= target as int);
            }
            self.block_count = block_count;
            self.rms_window_size = self.block_size * block_count;
            if block_count >= 1 {
                self.left_rms_cache = Some(
                    RmsCache {
                        block_cache: cq_with_capacity(block_count),
                        block_sum: 0,
                        staged_count: 0,
                        staged_sq: 0,
                    },
                );
                self.right_rms_cache = Some(
                    RmsCache {
                        block_cache: cq_with_capacity(block_count),
                        block_sum: 0,
                        staged_count: 0,
                        staged_sq: 0,
                    },
                );
            } else {
                self.left_rms_cache = None;
                self.right_rms_cache = None;
            }
        }
    }

    /// Feeds each stream's unread samples through its channel: the peak is
    /// reported for any non-empty batch; the RMS bar is reported exactly when
    /// this batch completed a block and the block cache holds a full window.
    pub fn process(&mut self, left_stream: &RingChannel, right_stream: Option<&RingChannel>) -> (out:
        DetectorOutput)
        requires
            old(self).wf(),
            left_stream.wf(),
            right_stream is Some ==> right_stream->0.wf(),
        ensures
            final(self).wf(),
            final(self).block_size_spec() == old(self).block_size_spec(),
            final(self).block_count_spec() == old(self).block_count_spec(),
            final(self).window() == old(self).window(),
            final(self).sample_rate_spec() == old(self).sample_rate_spec(),
            out.left_peak == if left_stream@.len() > 0 {
                Some(abs_max(left_stream@) as i32)
            } else {
                None::<i32>
            },
            out.right_peak == if right_stream is Some && right_stream->0@.len() > 0 {
                Some(abs_max(right_stream->0@) as i32)
            } else {
                None::<i32>
            },
            ({
                let bs = old(self).block_size_spec();
                let bc = old(self).block_count_spec();
                match old(self).left_model() {
                    None => final(self).left_model() is None && out.left_bar is None,
                    Some(m0) => if left_stream@.len() > 0 {
                        let m1 = feed_all(m0, left_stream@, bs, bc);
                        &&& final(self).left_model() == Some(m1)
                        &&& out.left_bar == (if completes_a_block(
                            m0.partial_count,
                            left_stream@.len() as int,
                            bs,
                        ) && m1.blocks.len() == bc {
                            Some(sqrt_floor(seq_sum(m1.blocks) / old(self).window()) as i32)
                        } else {
                            None::<i32>
                        })
                    } else {
                        final(self).left_model() == Some(m0) && out.left_bar is None
                    },
                }
            }),
            ({
                let bs = old(self).block_size_spec();
                let bc = old(self).block_count_spec();
                match old(self).right_model() {
                    None => final(self).right_model() is None && out.right_bar is None,
                    Some(m0) => if right_stream is Some && right_stream->0@.len() > 0 {
                        let m1 = feed_all(m0, right_stream->0@, bs, bc);
                        &&& final(self).right_model() == Some(m1)
                        &&& out.right_bar == (if completes_a_block(
                            m0.partial_count,
                            right_stream->0@.len() as int,
                            bs,
                        ) && m1.blocks.len() == bc {
                            Some(sqrt_floor(seq_sum(m1.blocks) / old(self).window()) as i32)
                        } else {
                            None::<i32>
                        })
                    } else {
                        final(self).right_model() == Some(m0) && out.right_bar is None
                    },
                }
            }),
    {
        let mut out = DetectorOutput::empty();
        let block_size = self.block_size;
        let block_count = self.block_count;
        let window = self.rms_window_size;

        let (s1, s2) = left_stream.read_access();
        if s1.len() > 0 || s2.len() > 0 {
            out.left_peak = Some(calc_peak(s1, s2));
            if let Some(cache) = &mut self.left_rms_cache {
                out.left_bar = rms_feed(cache, s1, s2, block_size, block_count, window);
            }
        }

        if let Some(right_stream) = right_stream {
            let (r1, r2) = right_stream.read_access();
            if r1.len() > 0 || r2.len() > 0 {
                out.right_peak = Some(calc_peak(r1, r2));
                if let Some(cache) = &mut self.right_rms_cache {
                    out.right_bar = rms_feed(cache, r1, r2, block_size, block_count, window);
                }
            }
        }

        out
    }

    /// Resets both channels' accumulators to empty without deallocating; the
    /// configuration is kept.
    pub fn clear(&mut self)
        requires
            old(self).wf(),
        ensures
            final(self).wf(),
            final(self).block_size_spec() == old(self).block_size_spec(),
            final(self).block_count_spec() == old(self).block_count_spec(),
            final(self).window() == old(self).window(),
            final(self).sample_rate_spec() == old(self).sample_rate_spec(),
            final(self).left_model() == (if old(self).left_model() is Some {
                Some(empty_model())
            } else {
                None::<RmsModel>
            }),
            final(self).right_model() == (if old(self).right_model() is Some {
                Some(empty_model())
            } else {
                None::<RmsModel>
            }),
    {
        if let Some(cache) = &mut self.left_rms_cache {
            cq_clear(&mut cache.block_cache);
            cache.block_sum = 0;
            cache.staged_count = 0;
            cache.staged_sq = 0;
        }
        if let Some(cache) = &mut self.right_rms_cache {
            cq_clear(&mut cache.block_cache);
            cache.block_sum = 0;
            cache.staged_count = 0;
            cache.staged_sq = 0;
        }
    }
}

/// Feeding `k` samples of constant amplitude `a` into a fresh accumulator
/// fills `k / block_size` blocks, each holding `block_size * a^2`, with the
/// remainder staged toward the next block.
proof fn lemma_feed_constant_prefix(a: i16, block_size: int, block_count: int, k: int)
    requires
        1 <= block_size <= RMS_MAX_BLOCK_SIZE,
        1 <= block_count,
        0 <= k <= block_size * block_count,
    ensures
        ({
            let m = feed_all(empty_model(), Seq::new(k as nat, |i: int| a), block_size, block_count);
            &&& m.blocks.len() == k / block_size
            &&& m.partial_count == k % block_size
            &&& m.partial_sq == (k % block_size) * square(a)
            &&& (forall|j: int|
                0 <= j < m.blocks.len() ==> m.blocks[j] == (block_size * square(a)) as u64)
            &&& seq_sum(m.blocks) == (k / block_size) * (block_size * square(a))
        }),
    decreases k,
{
    let input = Seq::new(k as nat, |i: int| a);
    if k == 0 {
        assert(input =~= Seq::<i16>::empty());
        assert(k == 0 * block_size + 0) by (nonlinear_arith)
            requires
                k == 0,
        {}
        vstd::arithmetic::div_mod::lemma_fundamental_div_mod_converse(k, block_size, 0, 0);
    } else {
        lemma_feed_constant_prefix(a, block_size, block_count, k - 1);
        let prev = Seq::new((k - 1) as nat, |i: int| a);
        assert(input.drop_last() =~= prev);
        assert(input.last() == a);
        let m0 = feed_all(empty_model(), prev, block_size, block_count);
        let m = feed_one(m0, a, block_size, block_count);
        let q = (k - 1) / block_size;
        let r = (k - 1) % block_size;
        vstd::arithmetic::div_mod::lemma_fundamental_div_mod(k - 1, block_size);
        assert(m0.partial_sq + square(a) == (r + 1) * square(a)) by (nonlinear_arith)
            requires
                m0.partial_sq == r * square(a),
        {}
        assert(0 <= square(a) <= SAMPLE_SQ_MAX as int) by (nonlinear_arith)
            requires
                -0x8000 <= a as int <= 0x7fff,
        {}
        if r + 1 == block_size {
            // The sample completes a block of exactly `block_size * a^2`.
            assert(k == (q + 1) * block_size + 0 && block_size * (q + 1) == k) by (nonlinear_arith)
                requires
                    k - 1 == block_size * q + r,
                    r + 1 == block_size,
            {}
            vstd::arithmetic::div_mod::lemma_fundamental_div_mod_converse(
                k,
                block_size,
                q + 1,
                0,
            );
            assert(q + 1 <= block_count) by (nonlinear_arith)
                requires
                    block_size * (q + 1) == k,
                    k <= block_size * block_count,
                    block_size >= 1,
            {}
            let sq = m0.partial_sq + square(a);
            assert(sq == block_size * square(a)) by (nonlinear_arith)
                requires
                    sq == (r + 1) * square(a),
                    r + 1 == block_size,
            {}
            assert(0 <= sq <= 0x100_0000 * (SAMPLE_SQ_MAX as int)) by (nonlinear_arith)
                requires
                    sq == block_size * square(a),
                    1 <= block_size <= 0x100_0000,
                    0 <= square(a) <= SAMPLE_SQ_MAX as int,
            {}
            assert(m.blocks == m0.blocks.push((block_size * square(a)) as u64));
            assert(m.blocks.drop_last() =~= m0.blocks);
            assert(seq_sum(m.blocks) == q * (block_size * square(a)) + block_size * square(a));
            assert(q * (block_size * square(a)) + block_size * square(a) == (q + 1) * (block_size
                * square(a))) by (nonlinear_arith) {}
        } else {
            assert(k == q * block_size + (r + 1)) by (nonlinear_arith)
                requires
                    k - 1 == block_size * q + r,
            {}
            vstd::arithmetic::div_mod::lemma_fundamental_div_mod_converse(
                k,
                block_size,
                q,
                r + 1,
            );
        }
    }
}

/// Feeding exactly one full window (`block_size * block_count` samples) of
/// constant amplitude `a` into a fresh accumulator yields an RMS amplitude of
/// exactly `|a|`: the cache fills completely and
/// `sqrt(sum of squares / window)` collapses to the amplitude itself.
pub proof fn lemma_rms_of_constant_window(a: i16, block_size: int, block_count: int)
    requires
        1 <= block_size <= RMS_MAX_BLOCK_SIZE,
        1 <= block_count,
    ensures
        ({
            let window = block_size * block_count;
            let m = feed_all(
                empty_model(),
                Seq::new(window as nat, |i: int| a),
                block_size,
                block_count,
            );
            &&& completes_a_block(empty_model().partial_count, window, block_size)
            &&& m.blocks.len() == block_count
            &&& sqrt_floor(seq_sum(m.blocks) / window) == abs_val(a as int)
        }),
{
    let window = block_size * block_count;
    assert(block_size <= window && block_count <= window && window >= 1) by (nonlinear_arith)
        requires
            window == block_size * block_count,
            block_size >= 1,
            block_count >= 1,
    {}
    lemma_feed_constant_prefix(a, block_size, block_count, window);
    let m = feed_all(empty_model(), Seq::new(window as nat, |i: int| a), block_size, block_count);
    assert(window == block_count * block_size + 0) by (nonlinear_arith)
        requires
            window == block_size * block_count,
    {}
    vstd::arithmetic::div_mod::lemma_fundamental_div_mod_converse(
        window,
        block_size,
        block_count,
        0,
    );
    assert(seq_sum(m.blocks) == block_count * (block_size * square(a)));
    assert(block_count * (block_size * square(a)) == window * square(a)) by (nonlinear_arith)
        requires
            window == block_size * block_count,
    {}
    vstd::arithmetic::div_mod::lemma_div_multiples_vanish(square(a), window);
    assert(seq_sum(m.blocks) / window == square(a));
    let v = abs_val(a as int);
    assert(v >= 0 && v * v <= square(a) && (v + 1) * (v + 1) > square(a)) by (nonlinear_arith)
        requires
            v == abs_val(a as int),
            -0x8000 <= a as int <= 0x7fff,
    {}
    assert(square(a) >= 0) by (nonlinear_arith) {}
    lemma_sqrt_floor_unique(square(a), v);
}

/// A fresh accumulator fed fewer samples than one full window cannot fill the
/// block cache, so no RMS is emitted: there is never a premature value, and a
/// sample-rate change (which resets the accumulators) silences the RMS until
/// a whole new window has been observed.
pub proof fn lemma_fresh_needs_full_window(input: Seq<i16>, block_size: int, block_count: int)
    requires
        block_size >= 1,
        block_count >= 1,
        input.len() < block_size * block_count,
    ensures
        ({
            let m = feed_all(empty_model(), input, block_size, block_count);
            &&& m.blocks.len() * block_size + m.partial_count <= input.len()
            &&& m.blocks.len() < block_count
        }),
    decreases input.len(),
{
    if input.len() == 0 {
        assert(block_count >= 1);
    } else {
        lemma_fresh_needs_full_window(input.drop_last(), block_size, block_count);
        let m0 = feed_all(empty_model(), input.drop_last(), block_size, block_count);
        let m = feed_one(m0, input.last(), block_size, block_count);
        if m0.partial_count + 1 == block_size {
            assert(m.blocks.len() == m0.blocks.len() + 1);
            assert((m0.blocks.len() + 1) * block_size == m0.blocks.len() * block_size
                + block_size) by (nonlinear_arith) {}
            assert(m.blocks.len() * block_size + m.partial_count <= input.len());
            assert(m.blocks.len() < block_count) by (nonlinear_arith)
                requires
                    m.blocks.len() * block_size <= input.len(),
                    input.len() < block_size * block_count,
                    block_size >= 1,
                    m.blocks.len() >= 0,
            {}
        }
    }
}

impl Default for PeakRmsDetector {
    /// A detector with the conventional block size of 256 samples.
    fn default() -> (d: PeakRmsDetector)
        ensures
            d.wf(),
            d.block_size_spec() == 256,
            d.window() == 0,
            d.left_model() is None,
            d.right_model() is None,
    {
        PeakRmsDetector::new(256)
    }
}

} // verus!
