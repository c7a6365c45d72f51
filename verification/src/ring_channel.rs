//! A fixed-capacity ring channel of audio samples between the audio engine
//! and the display layer.
//!
//! The channel keeps the newest samples: when a write exceeds the free space,
//! the oldest unread samples are evicted to make room, so after any sequence
//! of writes the channel holds the tail of everything written. Reads are
//! non-destructive: [`RingChannel::read_access`] lends the unread samples as
//! at most two borrowed segments without consuming them, and only
//! [`RingChannel::clear`] discards them.
//!
//! The channel is a sequential model of the producer/consumer pair: the write
//! side belongs to the audio engine and the read side to the display layer,
//! and the embedding is responsible for handing each side to its thread.

use vstd::prelude::*;
use vstd::slice::slice_index_get;
use vstd::slice::slice_subrange;

verus! {

/// A fixed-capacity ring of audio samples, keeping the newest ones.
pub struct RingChannel {
    buf: Vec<i16>,
    read: usize,
    count: usize,
}

/// Creates a new channel that can hold `capacity` unread samples.
pub fn new(capacity: usize) -> (c: RingChannel)
    requires
        1 <= capacity <= 0x4000_0000,
    ensures
        c.wf(),
        c.capacity() == capacity,
        c@ == Seq::<i16>::empty(),
{
    let mut buf: Vec<i16> = Vec::new();
    buf.resize(capacity, 0i16);
    RingChannel { buf, read: 0, count: 0 }
}

/// How many samples a write of `data` onto `held` must evict (or refuse to
/// keep) so that at most `cap` samples remain.
pub open spec fn write_excess(held: Seq<i16>, data: Seq<i16>, cap: int) -> int {
    if held.len() + data.len() > cap {
        held.len() + data.len() - cap
    } else {
        0
    }
}

impl RingChannel {
    /// The unread samples, oldest first.
    pub closed spec fn view(&self) -> Seq<i16> {
        Seq::new(self.count as nat, |k: int| self.buf@[(self.read + k) % (self.buf@.len() as int)])
    }

    /// The fixed capacity the channel was created with.
    pub closed spec fn capacity(&self) -> int {
        self.buf@.len() as int
    }

    /// Internal consistency of the cursors and storage.
    pub closed spec fn wf(&self) -> bool {
        &&& 1 <= self.buf@.len() <= 0x4000_0000
        &&& self.read < self.buf@.len()
        &&& self.count <= self.buf@.len()
    }

    /// Count of unread samples currently available.
    pub fn len(&self) -> (n: usize)
        requires
            self.wf(),
        ensures
            n == self@.len(),
    {
        self.count
    }

    /// Discards all unread samples; the storage itself is untouched, so the
    /// next write starts from a logically empty channel.
    pub fn clear(&mut self)
        requires
            old(self).wf(),
        ensures
            final(self).wf(),
            final(self).capacity() == old(self).capacity(),
            final(self)@ == Seq::<i16>::empty(),
    {
        self.count = 0;
        proof {
            assert(self@ =~= Seq::<i16>::empty());
        }
    }

    /// Discards the single oldest unread sample.
    fn drop_oldest(&mut self)
        requires
            old(self).wf(),
            old(self)@.len() > 0,
        ensures
            final(self).wf(),
            final(self).capacity() == old(self).capacity(),
            final(self)@ == old(self)@.skip(1),
    {
        self.read = (self.read + 1) % self.buf.len();
        self.count = self.count - 1;
        proof {
            let cap = self.buf@.len() as int;
            let r0 = old(self).read as int;
            let r1 = self.read as int;
            assert forall|k: int| 0 <= k < self.count implies self@[k] == old(self)@.skip(1)[k] by {
                assert((r0 + (k + 1)) % cap == (r1 + k) % cap) by (nonlinear_arith)
                    requires
                        cap > 0,
                        0 <= r0 < cap,
                        r1 == (r0 + 1) % cap,
                        0 <= k,
                {}
            }
            assert(self@ =~= old(self)@.skip(1));
        }
    }

    /// Appends one sample at the logical end.
    fn push_newest(&mut self, x: i16)
        requires
            old(self).wf(),
            old(self)@.len() < old(self).capacity(),
        ensures
            final(self).wf(),
            final(self).capacity() == old(self).capacity(),
            final(self)@ == old(self)@.push(x),
    {
        let cap = self.buf.len();
        let w = (self.read + self.count) % cap;
        self.buf.set(w, x);
        self.count = self.count + 1;
        proof {
            let capi = cap as int;
            let r = self.read as int;
            let c = self.count as int;
            assert forall|k: int| 0 <= k < self.count implies self@[k] == old(self)@.push(x)[k] by {
                if k < c - 1 {
                    assert((r + k) % capi != (r + (c - 1)) % capi) by (nonlinear_arith)
                        requires
                            0 <= r < capi,
                            0 <= k < c - 1,
                            c <= capi,
                    {}
                }
            }
            assert(self@ =~= old(self)@.push(x));
        }
    }

    /// Writes a batch of samples, evicting the oldest unread samples when the
    /// free space runs out, and reports how many samples were lost that way.
    /// The channel afterwards holds exactly the newest `capacity` (or fewer)
    /// of "what it held, then the batch".
    pub fn write(&mut self, data: &[i16]) -> (dropped: usize)
        requires
            old(self).wf(),
        ensures
            final(self).wf(),
            final(self).capacity() == old(self).capacity(),
            dropped == write_excess(old(self)@, data@, old(self).capacity()),
            final(self)@ == (old(self)@ + data@).skip(dropped as int),
            final(self)@.len() <= final(self).capacity(),
    {
        let ghost held = self@;
        let cap = self.buf.len();
        let mut dropped: usize = 0;
        let mut i: usize = 0;
        while i < data.len()
            invariant
                self.wf(),
                self.capacity() == cap,
                i <= data@.len(),
                held.len() <= cap,
                dropped <= i,
                dropped == write_excess(held, data@.take(i as int), cap as int),
                self@ =~= (held + data@.take(i as int)).skip(dropped as int),
            decreases data@.len() - i,
        {
            if self.count == cap {
                self.drop_oldest();
                dropped = dropped + 1;
            }
            self.push_newest(*slice_index_get(data, i));
            i = i + 1;
            proof {
                assert(held + data@.take(i as int)
                    =~= (held + data@.take(i - 1)).push(data@[i - 1]));
            }
        }
        proof {
            assert(data@.take(data@.len() as int) =~= data@);
        }
        dropped
    }

    /// Lends the unread samples, oldest first, as at most two contiguous
    /// segments (the ring's two wrap parts) without consuming them.
    pub fn read_access(&self) -> (segments: (&[i16], &[i16]))
        requires
            self.wf(),
        ensures
            segments.0@ + segments.1@ == self@,
            segments.0@.len() + segments.1@.len() <= 0x4000_0000,
    {
        let cap = self.buf.len();
        if self.read + self.count <= cap {
            let s1 = slice_subrange(self.buf.as_slice(), self.read, self.read + self.count);
            let s2 = slice_subrange(self.buf.as_slice(), 0, 0);
            proof {
                lemma_segments_view(self.buf@, self.read as int, self.count as int);
                assert(s1@ + s2@ =~= self@);
            }
            (s1, s2)
        } else {
            let s1 = slice_subrange(self.buf.as_slice(), self.read, cap);
            let s2 = slice_subrange(self.buf.as_slice(), 0, self.read + self.count - cap);
            proof {
                lemma_segments_view(self.buf@, self.read as int, self.count as int);
                assert(s1@ + s2@ =~= self@);
            }
            (s1, s2)
        }
    }
}

/// Everything held by a channel of capacity `cap` after the write batches
/// `inputs` land on `held`, per [`RingChannel::write`]'s postcondition.
pub open spec fn channel_fold(held: Seq<i16>, inputs: Seq<Seq<i16>>, cap: int) -> Seq<i16>
    decreases inputs.len(),
{
    if inputs.len() == 0 {
        held
    } else {
        let prev = channel_fold(held, inputs.drop_last(), cap);
        (prev + inputs.last()).skip(write_excess(prev, inputs.last(), cap))
    }
}

/// The concatenation of a sequence of batches, in write order.
pub open spec fn concat_all(inputs: Seq<Seq<i16>>) -> Seq<i16>
    decreases inputs.len(),
{
    if inputs.len() == 0 {
        Seq::empty()
    } else {
        concat_all(inputs.drop_last()) + inputs.last()
    }
}

/// A write that fits in the free space keeps every sample already held and
/// appends the whole batch: nothing is dropped, and a subsequent
/// non-destructive read yields exactly the held samples followed by the batch,
/// in write order.
pub proof fn lemma_write_within_free_space(held: Seq<i16>, data: Seq<i16>, cap: int)
    requires
        held.len() + data.len() <= cap,
    ensures
        write_excess(held, data, cap) == 0,
        (held + data).skip(write_excess(held, data, cap)) == held + data,
{
    assert((held + data).skip(0) =~= held + data);
}

/// Over any sequence of write batches onto an initially empty channel, what
/// the channel retains is exactly the tail of the concatenated input whose
/// length is the smaller of the capacity and the total written: the newest
/// samples survive and only the oldest are dropped.
pub proof fn lemma_retains_newest_tail(inputs: Seq<Seq<i16>>, cap: int)
    requires
        cap >= 1,
    ensures
        channel_fold(Seq::empty(), inputs, cap) == concat_all(inputs).skip(
            write_excess(Seq::empty(), concat_all(inputs), cap),
        ),
        channel_fold(Seq::empty(), inputs, cap).len() == if concat_all(inputs).len() <= cap {
            concat_all(inputs).len() as int
        } else {
            cap
        },
    decreases inputs.len(),
{
    let all = concat_all(inputs);
    if inputs.len() == 0 {
        assert(channel_fold(Seq::<i16>::empty(), inputs, cap) =~= all.skip(
            write_excess(Seq::empty(), all, cap),
        ));
    } else {
        lemma_retains_newest_tail(inputs.drop_last(), cap);
        let prev_all = concat_all(inputs.drop_last());
        let prev = channel_fold(Seq::<i16>::empty(), inputs.drop_last(), cap);
        let last = inputs.last();
        assert(channel_fold(Seq::<i16>::empty(), inputs, cap) =~= all.skip(
            write_excess(Seq::empty(), all, cap),
        ));
    }
}

/// After `clear`, the channel is empty, and a following write whose batch fits
/// the capacity is fully visible with no residue of what was held before.
pub proof fn lemma_clear_then_write_visible(data: Seq<i16>, cap: int)
    requires
        data.len() <= cap,
    ensures
        write_excess(Seq::empty(), data, cap) == 0,
        (Seq::<i16>::empty() + data).skip(write_excess(Seq::empty(), data, cap)) == data,
{
    assert((Seq::<i16>::empty() + data).skip(0) =~= data);
}

/// Relates the two wrap segments of the ring storage to the logical view.
proof fn lemma_segments_view(buf: Seq<i16>, read: int, count: int)
    requires
        0 <= read < buf.len(),
        0 <= count <= buf.len(),
    ensures
        forall|k: int|
            0 <= k < count ==> #[trigger] buf[(read + k) % (buf.len() as int)] == if read + k
                < buf.len() {
                buf[read + k]
            } else {
                buf[read + k - buf.len()]
            },
{
    let cap = buf.len() as int;
    assert forall|k: int| 0 <= k < count implies #[trigger] buf[(read + k) % cap] == if read + k
        < cap {
        buf[read + k]
    } else {
        buf[read + k - cap]
    } by {
        if read + k < cap {
            assert((read + k) % cap == read + k) by (nonlinear_arith)
                requires
                    0 <= read + k < cap,
            {}
        } else {
            assert((read + k) % cap == read + k - cap) by (nonlinear_arith)
                requires
                    cap <= read + k < 2 * cap,
            {}
        }
    }
}

} // verus!
