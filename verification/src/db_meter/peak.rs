//! A stateless level detector that reduces each frame's batch to the largest
//! absolute sample amplitude.

use vstd::prelude::*;
use vstd::slice::slice_index_get;

use crate::abs_val;
use crate::db_meter::DetectorOutput;
use crate::ring_channel::RingChannel;

verus! {

/// Largest absolute value over a sequence of samples; `0` for an empty batch.
pub open spec fn abs_max(s: Seq<i16>) -> int
    decreases s.len(),
{
    if s.len() == 0 {
        0
    } else {
        let rest = abs_max(s.drop_last());
        if abs_val(s.last() as int) > rest {
            abs_val(s.last() as int)
        } else {
            rest
        }
    }
}

/// Largest absolute sample amplitude over the two slices combined.
pub fn calc_peak(s1: &[i16], s2: &[i16]) -> (r: i32)
    ensures
        r == abs_max(s1@ + s2@),
        0 <= r <= 32768,
{
    let mut r: i32 = 0;
    let ghost all = s1@ + s2@;
    let mut i: usize = 0;
    while i < s1.len()
        invariant
            i <= s1@.len(),
            all == s1@ + s2@,
            r == abs_max(all.take(i as int)),
            0 <= r <= 32768,
        decreases s1@.len() - i,
    {
        let a = crate::sample_abs(*slice_index_get(s1, i));
        if a > r {
            r = a;
        }
        i = i + 1;
        proof {
            assert(all.take(i as int).drop_last() =~= all.take(i - 1));
        }
    }
    let mut j: usize = 0;
    while j < s2.len()
        invariant
            j <= s2@.len(),
            all == s1@ + s2@,
            r == abs_max(all.take(s1@.len() + j)),
            0 <= r <= 32768,
        decreases s2@.len() - j,
    {
        let a = crate::sample_abs(*slice_index_get(s2, j));
        if a > r {
            r = a;
        }
        j = j + 1;
        proof {
            assert(all.take(s1@.len() + j).drop_last() =~= all.take(s1@.len() + j - 1));
        }
    }
    proof {
        assert(all.take(all.len() as int) =~= all);
    }
    r
}

/// A level detector that reports, per channel, the peak amplitude of the
/// frame's batch. It holds no state across calls.
#[derive(Clone, Copy, PartialEq, Eq, Structural, Debug)]
pub struct PeakDetector;

impl PeakDetector {
    /// Creates a new `PeakDetector`.
    pub fn new() -> PeakDetector {
        PeakDetector
    }

    /// A sample-rate change does not affect a stateless reduction.
    pub fn update_sample_rate(&mut self, _sample_rate: u32)
        ensures
            *final(self) == *old(self),
    {
    }

    /// Reduces the unread samples of each stream to its peak amplitude. An
    /// empty batch yields `None`; an all-zero batch yields `Some(0)`, the
    /// silence sentinel.
    pub fn process(&mut self, left_stream: &RingChannel, right_stream: Option<&RingChannel>) -> (out:
        DetectorOutput)
        requires
            left_stream.wf(),
            right_stream is Some ==> right_stream->0.wf(),
        ensures
            out.left_peak == if left_stream@.len() > 0 {
                Some(abs_max(left_stream@) as i32)
            } else {
                None::<i32>
            },
            out.left_bar == out.left_peak,
            out.right_peak == if right_stream is Some && right_stream->0@.len() > 0 {
                Some(abs_max(right_stream->0@) as i32)
            } else {
                None::<i32>
            },
            out.right_bar == out.right_peak,
    {
        let mut out = DetectorOutput::empty();

        let (s1, s2) = left_stream.read_access();
        if s1.len() > 0 || s2.len() > 0 {
            out.left_peak = Some(calc_peak(s1, s2));
            out.left_bar = out.left_peak;
        }

        if let Some(right_stream) = right_stream {
            let (r1, r2) = right_stream.read_access();
            if r1.len() > 0 || r2.len() > 0 {
                out.right_peak = Some(calc_peak(r1, r2));
                out.right_bar = out.right_peak;
            }
        }

        out
    }

    /// Nothing to reset in a stateless reduction.
    pub fn clear(&mut self)
        ensures
            *final(self) == *old(self),
    {
    }
}

/// A batch holding a single sample of amplitude `a` reduces to exactly `|a|`.
pub proof fn lemma_peak_of_single_sample(a: i16)
    ensures
        abs_max(seq![a]) == abs_val(a as int),
{
    let s = seq![a];
    assert(s.len() == 1 && s.last() == a);
    assert(s.drop_last() =~= Seq::<i16>::empty());
    assert(abs_max(s.drop_last()) == 0);
}

/// An all-zero batch reduces to the silence sentinel `0` rather than an
/// arbitrary value.
pub proof fn lemma_peak_of_silence(s: Seq<i16>)
    requires
        forall|k: int| 0 <= k < s.len() ==> s[k] == 0,
    ensures
        abs_max(s) == 0,
    decreases s.len(),
{
    if s.len() > 0 {
        lemma_peak_of_silence(s.drop_last());
    }
}

} // verus!
