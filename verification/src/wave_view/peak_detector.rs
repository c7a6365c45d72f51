//! The default detector for the scrolling waveform view: it reduces each
//! output pixel's span of new samples to a min/max envelope pair.
//!
//! Spans are paced by an exact accumulator: every sample adds `plot_len`
//! units and every completed point subtracts `window_samples` units, so over
//! one window exactly `plot_len` points are emitted, with no drift.

use vstd::prelude::*;

use crate::ring_channel::RingChannel;
use crate::wave_view::pairs_of;
use crate::wave_view::Plot;
use crate::wave_view::PlotPoint;
use crate::wave_view::WAVE_MAX_RESOLUTION;

verus! {

/// Largest accepted waveform window, in samples.
pub const WAVE_MAX_WINDOW_SAMPLES: usize = 0x100_0000;

/// The detection mode of a waveform-view detector. Only `MonoOrLeftOnly`
/// aggregates samples; under every other mode the detector leaves the plots
/// untouched.
#[derive(Debug, Copy, Clone, PartialEq, Eq, Structural)]
pub enum Mode {
    /// Use only the left/mono channel as the input.
    MonoOrLeftOnly,
    /// Use only the right channel as the input.
    RightOnly,
    /// Use both channels as input.
    Dual,
    /// Use both channels as input, but combine them into
    /// a mono signal. Uses more CPU.
    StereoToMono,
}

/// Largest sample over a batch; the neutral element `i16::MIN` for an empty
/// batch.
pub open spec fn seq_max(s: Seq<i16>) -> int
    decreases s.len(),
{
    if s.len() == 0 {
        i16::MIN as int
    } else {
        let rest = seq_max(s.drop_last());
        if s.last() as int > rest {
            s.last() as int
        } else {
            rest
        }
    }
}

/// Smallest sample over a batch; the neutral element `i16::MAX` for an empty
/// batch.
pub open spec fn seq_min(s: Seq<i16>) -> int
    decreases s.len(),
{
    if s.len() == 0 {
        i16::MAX as int
    } else {
        let rest = seq_min(s.drop_last());
        if (s.last() as int) < rest {
            s.last() as int
        } else {
            rest
        }
    }
}

/// The envelope of a batch: its largest and smallest sample, with the neutral
/// extremes for an empty batch.
pub fn min_max(s: &[i16]) -> (p: PlotPoint)
    ensures
        p.max as int == seq_max(s@),
        p.min as int == seq_min(s@),
{
    let mut p = PlotPoint { max: i16::MIN, min: i16::MAX };
    let mut i: usize = 0;
    while i < s.len()
        invariant
            i <= s@.len(),
            p.max as int == seq_max(s@.take(i as int)),
            p.min as int == seq_min(s@.take(i as int)),
        decreases s@.len() - i,
    {
        let val = *vstd::slice::slice_index_get(s, i);
        if val > p.max {
            p.max = val;
        }
        if val < p.min {
            p.min = val;
        }
        i = i + 1;
        proof {
            assert(s@.take(i as int).drop_last() =~= s@.take(i - 1));
        }
    }
    proof {
        assert(s@.take(s@.len() as int) =~= s@);
    }
    p
}

/// The mathematical state of the envelope aggregator: the points emitted so
/// far, the pacing accumulator, and the envelope of the span in progress.
pub struct WaveModel {
    /// Envelope points emitted, oldest first, as `(max, min)` pairs.
    pub emitted: Seq<(i16, i16)>,
    /// Pacing units accumulated toward the next point.
    pub acc: int,
    /// Largest sample of the span in progress.
    pub cur_max: i16,
    /// Smallest sample of the span in progress.
    pub cur_min: i16,
}

/// A fresh aggregator: nothing emitted, nothing in progress.
pub open spec fn wave_fresh() -> WaveModel {
    WaveModel { emitted: Seq::empty(), acc: 0, cur_max: i16::MIN, cur_min: i16::MAX }
}

/// Emits points while a whole window's worth of pacing units is pending.
pub open spec fn wave_drain(m: WaveModel, w: int) -> WaveModel
    decreases
            (if m.acc < 0 {
                0int
            } else {
                m.acc
            }),
{
    if w >= 1 && m.acc >= w {
        wave_drain(
            WaveModel {
                emitted: m.emitted.push((m.cur_max, m.cur_min)),
                acc: m.acc - w,
                cur_max: i16::MIN,
                cur_min: i16::MAX,
            },
            w,
        )
    } else {
        m
    }
}

/// One sample entering the aggregator: it joins the span in progress and adds
/// `l` pacing units, emitting any points now due.
pub open spec fn wave_feed_one(m: WaveModel, x: i16, w: int, l: int) -> WaveModel {
    wave_drain(
        WaveModel {
            emitted: m.emitted,
            acc: m.acc + l,
            cur_max: if x > m.cur_max {
                x
            } else {
                m.cur_max
            },
            cur_min: if x < m.cur_min {
                x
            } else {
                m.cur_min
            },
        },
        w,
    )
}

/// A batch of samples entering the aggregator, in order.
pub open spec fn wave_feed_all(m: WaveModel, input: Seq<i16>, w: int, l: int) -> WaveModel
    decreases input.len(),
{
    if input.len() == 0 {
        m
    } else {
        wave_feed_one(wave_feed_all(m, input.drop_last(), w, l), input.last(), w, l)
    }
}

/// One channel's in-progress aggregation, kept across calls so that a point
/// whose span straddles two batches still comes out right.
pub struct ChannelAgg {
    acc: usize,
    cur_max: i16,
    cur_min: i16,
}

impl ChannelAgg {
    /// The mathematical aggregator this realises, with `emitted` standing for
    /// the points of the current call only.
    pub closed spec fn model(&self, emitted: Seq<(i16, i16)>) -> WaveModel {
        WaveModel {
            emitted,
            acc: self.acc as int,
            cur_max: self.cur_max,
            cur_min: self.cur_min,
        }
    }

    /// The accumulator stays below one window.
    pub closed spec fn wf(&self, w: int) -> bool {
        0 <= self.acc < w
    }
}

/// A fresh in-progress aggregation.
fn agg_fresh() -> (a: ChannelAgg)
    ensures
        a.model(Seq::empty()) == wave_fresh(),
        forall|w: int| w >= 1 ==> a.wf(w),
{
    ChannelAgg { acc: 0, cur_max: i16::MIN, cur_min: i16::MAX }
}

/// One sample entering the aggregation, with any newly due points appended to
/// `out`; mirrors [`wave_feed_one`] exactly.
fn agg_feed_sample(agg: &mut ChannelAgg, x: i16, w: usize, l: usize, out: &mut Vec<PlotPoint>)
    requires
        old(agg).wf(w as int),
        1 <= w <= WAVE_MAX_WINDOW_SAMPLES,
        1 <= l <= WAVE_MAX_RESOLUTION,
    ensures
        final(agg).wf(w as int),
        final(agg).model(pairs_of(final(out)@)) == wave_feed_one(
            old(agg).model(pairs_of(old(out)@)),
            x,
            w as int,
            l as int,
        ),
{
    if x > agg.cur_max {
        agg.cur_max = x;
    }
    if x < agg.cur_min {
        agg.cur_min = x;
    }
    agg.acc = agg.acc + l;
    let ghost target = wave_feed_one(old(agg).model(pairs_of(old(out)@)), x, w as int, l as int);
    proof {
        assert(target == wave_drain(agg.model(pairs_of(out@)), w as int));
    }
    while agg.acc >= w
        invariant
            w >= 1,
            target == wave_drain(agg.model(pairs_of(out@)), w as int),
        decreases agg.acc,
    {
        let ghost m_pre = agg.model(pairs_of(out@));
        out.push(PlotPoint { max: agg.cur_max, min: agg.cur_min });
        proof {
            assert(pairs_of(out@) =~= m_pre.emitted.push((m_pre.cur_max, m_pre.cur_min)));
        }
        agg.acc = agg.acc - w;
        agg.cur_max = i16::MIN;
        agg.cur_min = i16::MAX;
        proof {
            assert(agg.model(pairs_of(out@)) == WaveModel {
                emitted: m_pre.emitted.push((m_pre.cur_max, m_pre.cur_min)),
                acc: m_pre.acc - w,
                cur_max: i16::MIN,
                cur_min: i16::MAX,
            });
            assert(wave_drain(m_pre, w as int) == wave_drain(
                agg.model(pairs_of(out@)),
                w as int,
            ));
        }
    }
}

/// A batch (as the ring's two segments) entering the aggregation; the points
/// that became due are returned in order.
fn agg_feed_segments(agg: &mut ChannelAgg, s1: &[i16], s2: &[i16], w: usize, l: usize) -> (pts:
    Vec<PlotPoint>)
    requires
        old(agg).wf(w as int),
        1 <= w <= WAVE_MAX_WINDOW_SAMPLES,
        1 <= l <= WAVE_MAX_RESOLUTION,
    ensures
        final(agg).wf(w as int),
        ({
            let m1 = wave_feed_all(
                old(agg).model(Seq::empty()),
                s1@ + s2@,
                w as int,
                l as int,
            );
            &&& pairs_of(pts@) == m1.emitted
            &&& final(agg).model(m1.emitted) == m1
        }),
{
    let ghost m0 = agg.model(Seq::empty());
    let ghost all = s1@ + s2@;
    let mut pts: Vec<PlotPoint> = Vec::new();
    proof {
        assert(pairs_of(pts@) =~= Seq::<(i16, i16)>::empty());
    }
    let mut i: usize = 0;
    while i < s1.len()
        invariant
            i <= s1@.len(),
            all == s1@ + s2@,
            1 <= w <= WAVE_MAX_WINDOW_SAMPLES,
            1 <= l <= WAVE_MAX_RESOLUTION,
            agg.wf(w as int),
            agg.model(pairs_of(pts@)) == wave_feed_all(m0, all.take(i as int), w as int, l as int),
        decreases s1@.len() - i,
    {
        agg_feed_sample(agg, *vstd::slice::slice_index_get(s1, i), w, l, &mut pts);
        i = i + 1;
        proof {
            assert(all.take(i as int).drop_last() =~= all.take(i - 1));
        }
    }
    let mut j: usize = 0;
    while j < s2.len()
        invariant
            j <= s2@.len(),
            all == s1@ + s2@,
            1 <= w <= WAVE_MAX_WINDOW_SAMPLES,
            1 <= l <= WAVE_MAX_RESOLUTION,
            agg.wf(w as int),
            agg.model(pairs_of(pts@)) == wave_feed_all(
                m0,
                all.take(s1@.len() + j),
                w as int,
                l as int,
            ),
        decreases s2@.len() - j,
    {
        agg_feed_sample(agg, *vstd::slice::slice_index_get(s2, j), w, l, &mut pts);
        j = j + 1;
        proof {
            assert(all.take(s1@.len() + j).drop_last() =~= all.take(s1@.len() + j - 1));
        }
    }
    proof {
        assert(all.take(all.len() as int) =~= all);
    }
    pts
}

/// Over a monotonically non-decreasing signal (a ramp), the envelope comes
/// out in order: feeding any prefix of such a signal into a fresh aggregator
/// (with at least one sample per point, `l <= w`) emits points whose `max`
/// values are non-decreasing and whose `min` never exceeds its `max`; the
/// span in progress never exceeds the last sample fed.
pub proof fn lemma_wave_envelope_of_monotone(input: Seq<i16>, w: int, l: int, k: int)
    requires
        1 <= l <= w,
        0 <= k <= input.len(),
        forall|a: int, b: int| 0 <= a <= b < input.len() ==> input[a] <= input[b],
    ensures
        ({
            let m = wave_feed_all(wave_fresh(), input.take(k), w, l);
            &&& 0 <= m.acc < w
            &&& (forall|a: int, b: int|
                0 <= a <= b < m.emitted.len() ==> m.emitted[a].0 <= m.emitted[b].0)
            &&& (forall|a: int| 0 <= a < m.emitted.len() ==> m.emitted[a].1 <= m.emitted[a].0)
            &&& (k > 0 ==> m.cur_max as int <= input[k - 1])
            &&& (m.emitted.len() > 0 ==> k > 0 && m.emitted.last().0 as int <= input[k - 1])
        }),
    decreases k,
{
    let m = wave_feed_all(wave_fresh(), input.take(k), w, l);
    if k == 0 {
        assert(input.take(0) =~= Seq::<i16>::empty());
    } else {
        lemma_wave_envelope_of_monotone(input, w, l, k - 1);
        let prev = wave_feed_all(wave_fresh(), input.take(k - 1), w, l);
        let x = input[k - 1];
        assert(input.take(k).drop_last() =~= input.take(k - 1));
        assert(input.take(k).last() == x);
        let cmax: i16 = if x > prev.cur_max {
            x
        } else {
            prev.cur_max
        };
        let cmin: i16 = if x < prev.cur_min {
            x
        } else {
            prev.cur_min
        };
        let m_mid = WaveModel {
            emitted: prev.emitted,
            acc: prev.acc + l,
            cur_max: cmax,
            cur_min: cmin,
        };
        assert(m == wave_drain(m_mid, w));
        // The last sample fed dominates everything aggregated so far.
        assert(prev.cur_max as int <= x as int);
        assert(cmax as int <= x as int && cmin as int <= cmax as int);
        if prev.emitted.len() > 0 {
            assert(input[k - 2] <= input[k - 1]);
            assert(prev.emitted.last().0 as int <= x as int);
        }
        if m_mid.acc >= w {
            // Exactly one point falls due: the accumulator was below `w` and
            // one sample adds at most `l <= w`.
            let m_done = WaveModel {
                emitted: prev.emitted.push((cmax, cmin)),
                acc: m_mid.acc - w,
                cur_max: i16::MIN,
                cur_min: i16::MAX,
            };
            assert(wave_drain(m_mid, w) == wave_drain(m_done, w));
            assert(wave_drain(m_done, w) == m_done);
            assert forall|a: int, b: int|
                0 <= a <= b < m.emitted.len() implies m.emitted[a].0 <= m.emitted[b].0 by {
                if b == m.emitted.len() - 1 && a < b {
                    assert(prev.emitted[a].0 <= prev.emitted[prev.emitted.len() - 1].0);
                }
            }
        }
    }
}

/// The exact envelope of a ramp: feeding any prefix of the affine signal
/// `input[i] == a + i * d` (slope `d >= 0`) into a fresh aggregator whose
/// window is a whole number of spans (`w == span * l`) emits, for every
/// completed span `j`, the pair whose `max` is the span's last sample and
/// whose `min` is its first — so each point's `min` equals its `max` minus
/// `(span - 1) * d`, the ramp's rise across one point. The partial span's
/// state is pinned too, so the result is independent of how the signal is
/// split into batches.
pub proof fn lemma_wave_ramp_envelope(input: Seq<i16>, a: int, d: int, span: int, l: int, k: int)
    requires
        d >= 0,
        span >= 1,
        l >= 1,
        forall|i: int| 0 <= i < input.len() ==> input[i] as int == a + i * d,
        0 <= k <= input.len(),
    ensures
        ({
            let w = span * l;
            let m = wave_feed_all(wave_fresh(), input.take(k), w, l);
            &&& m.emitted.len() == k / span
            &&& (forall|j: int|
                0 <= j < m.emitted.len() ==> {
                    &&& (#[trigger] m.emitted[j]).0 as int == a + (j * span + span - 1) * d
                    &&& m.emitted[j].1 as int == a + j * span * d
                    &&& m.emitted[j].1 as int == m.emitted[j].0 as int - (span - 1) * d
                })
            &&& m.acc == (k % span) * l
            &&& (k % span == 0 ==> m.cur_max == i16::MIN && m.cur_min == i16::MAX)
            &&& (k % span != 0 ==> m.cur_max as int == a + (k - 1) * d && m.cur_min as int == a + (
            k / span) * span * d)
        }),
    decreases k,
{
    let w = span * l;
    assert(w >= 1 && w == span * l && l <= w) by (nonlinear_arith)
        requires
            span >= 1,
            l >= 1,
            w == span * l,
    {}
    if k == 0 {
        assert(input.take(0) =~= Seq::<i16>::empty());
        assert(k == 0 * span + 0) by (nonlinear_arith)
            requires
                k == 0,
        {}
        vstd::arithmetic::div_mod::lemma_fundamental_div_mod_converse(k, span, 0, 0);
        assert((0int % span) * l == 0) by (nonlinear_arith)
            requires
                0int % span == 0,
        {}
    } else {
        lemma_wave_ramp_envelope(input, a, d, span, l, k - 1);
        let prev = wave_feed_all(wave_fresh(), input.take(k - 1), w, l);
        let x = input[k - 1];
        assert(input.take(k).drop_last() =~= input.take(k - 1));
        assert(input.take(k).last() == x);
        let q = (k - 1) / span;
        let r = (k - 1) % span;
        vstd::arithmetic::div_mod::lemma_fundamental_div_mod(k - 1, span);
        assert(x as int == a + (k - 1) * d);

        // The accumulated pacing after this sample.
        assert(prev.acc + l == (r + 1) * l) by (nonlinear_arith)
            requires
                prev.acc == r * l,
        {}

        // The span in progress absorbs the sample: the ramp rises, so the
        // sample is the new maximum, and the span's first sample stays the
        // minimum.
        if r != 0 {
            assert(prev.cur_max as int <= x as int) by (nonlinear_arith)
                requires
                    prev.cur_max as int == a + (k - 2) * d,
                    x as int == a + (k - 1) * d,
                    d >= 0,
            {}
            assert(prev.cur_min as int <= x as int) by (nonlinear_arith)
                requires
                    prev.cur_min as int == a + (q * span) * d,
                    x as int == a + (k - 1) * d,
                    q * span <= k - 1,
                    d >= 0,
            {}
        } else {
            assert(x as int == a + (q * span) * d) by (nonlinear_arith)
                requires
                    k - 1 == span * q + r,
                    r == 0,
                    x as int == a + (k - 1) * d,
            {}
        }
        let cmax: i16 = if x > prev.cur_max {
            x
        } else {
            prev.cur_max
        };
        let cmin: i16 = if x < prev.cur_min {
            x
        } else {
            prev.cur_min
        };
        assert(cmax as int == a + (k - 1) * d);
        assert(cmin as int == a + (q * span) * d);
        let m_mid = WaveModel {
            emitted: prev.emitted,
            acc: prev.acc + l,
            cur_max: cmax,
            cur_min: cmin,
        };
        let m = wave_feed_all(wave_fresh(), input.take(k), w, l);
        assert(m == wave_drain(m_mid, w));

        if r + 1 == span {
            // The sample closes span `q`: one point falls due, and the
            // accumulator returns to zero.
            assert(m_mid.acc >= w) by (nonlinear_arith)
                requires
                    m_mid.acc == (r + 1) * l,
                    w == span * l,
                    r + 1 == span,
            {}
            let m_done = WaveModel {
                emitted: prev.emitted.push((cmax, cmin)),
                acc: m_mid.acc - w,
                cur_max: i16::MIN,
                cur_min: i16::MAX,
            };
            assert(wave_drain(m_mid, w) == wave_drain(m_done, w));
            assert(m_done.acc == 0) by (nonlinear_arith)
                requires
                    m_mid.acc == (r + 1) * l,
                    w == span * l,
                    r + 1 == span,
                    m_done.acc == m_mid.acc - w,
            {}
            assert(wave_drain(m_done, w) == m_done);
            assert(k == (q + 1) * span + 0) by (nonlinear_arith)
                requires
                    k - 1 == span * q + r,
                    r + 1 == span,
            {}
            vstd::arithmetic::div_mod::lemma_fundamental_div_mod_converse(k, span, q + 1, 0);
            assert((k % span) * l == 0) by (nonlinear_arith)
                requires
                    k % span == 0,
            {}
            assert(cmax as int == a + (q * span + span - 1) * d) by (nonlinear_arith)
                requires
                    cmax as int == a + (k - 1) * d,
                    k - 1 == span * q + r,
                    r + 1 == span,
            {}
            assert(cmin as int == cmax as int - (span - 1) * d) by (nonlinear_arith)
                requires
                    cmax as int == a + (q * span + span - 1) * d,
                    cmin as int == a + (q * span) * d,
            {}
            assert forall|j: int| 0 <= j < m.emitted.len() implies {
                &&& (#[trigger] m.emitted[j]).0 as int == a + (j * span + span - 1) * d
                &&& m.emitted[j].1 as int == a + j * span * d
                &&& m.emitted[j].1 as int == m.emitted[j].0 as int - (span - 1) * d
            } by {
                if j < m.emitted.len() - 1 {
                    assert(m.emitted[j] == prev.emitted[j]);
                } else {
                    assert(m.emitted[j] == (cmax, cmin));
                }
            }
        } else {
            // The span continues: nothing is emitted.
            assert(m_mid.acc < w) by (nonlinear_arith)
                requires
                    m_mid.acc == (r + 1) * l,
                    w == span * l,
                    0 <= r + 1 < span,
                    l >= 1,
            {}
            assert(wave_drain(m_mid, w) == m_mid);
            assert(k == q * span + (r + 1)) by (nonlinear_arith)
                requires
                    k - 1 == span * q + r,
            {}
            vstd::arithmetic::div_mod::lemma_fundamental_div_mod_converse(k, span, q, r + 1);
        }
    }
}

/// The waveform detector's configuration.
pub struct Params {
    gain: u32,
    mode: Mode,
    sample_rate: u32,
    window_ms: u32,
    window_samples: usize,
}

impl Params {
    /// The window length, in samples.
    pub closed spec fn window_spec(&self) -> int {
        self.window_samples as int
    }

    /// The window length, in milliseconds.
    pub closed spec fn window_ms_spec(&self) -> int {
        self.window_ms as int
    }

    /// The sample rate, in Hz.
    pub closed spec fn sample_rate_spec(&self) -> int {
        self.sample_rate as int
    }

    /// The linear gain. The envelope itself is unscaled; the gain is kept for
    /// the rendering layer.
    pub closed spec fn gain_spec(&self) -> int {
        self.gain as int
    }

    /// The detection mode.
    pub closed spec fn mode_spec(&self) -> Mode {
        self.mode
    }

    /// Consistency: the derived window length matches the configuration.
    pub closed spec fn wf(&self) -> bool {
        &&& self.window_samples as int == self.window_ms as int * self.sample_rate as int / 1000
        &&& 1 <= self.window_samples <= WAVE_MAX_WINDOW_SAMPLES
    }

    /// Creates a configuration. The window is given in milliseconds and must
    /// come to between 1 and `WAVE_MAX_WINDOW_SAMPLES` samples at the given
    /// rate.
    pub fn new(gain: u32, mode: Mode, sample_rate: u32, window_ms: u32) -> (p: Params)
        requires
            1000 <= window_ms * sample_rate,
            window_ms * sample_rate <= 1000 * WAVE_MAX_WINDOW_SAMPLES,
        ensures
            p.wf(),
            p.gain_spec() == gain,
            p.mode_spec() == mode,
            p.sample_rate_spec() == sample_rate,
            p.window_ms_spec() == window_ms,
            p.window_spec() == window_ms as int * sample_rate as int / 1000,
    {
        let window_samples = wave_derive_window(window_ms, sample_rate);
        Params { gain, mode, sample_rate, window_ms, window_samples }
    }
}

/// Derives the window length in samples, rounding down.
fn wave_derive_window(window_ms: u32, sample_rate: u32) -> (w: usize)
    requires
        1000 <= window_ms * sample_rate,
        window_ms * sample_rate <= 1000 * WAVE_MAX_WINDOW_SAMPLES,
    ensures
        w as int == window_ms as int * sample_rate as int / 1000,
        1 <= w <= WAVE_MAX_WINDOW_SAMPLES,
{
    let w64 = (window_ms as u64) * (sample_rate as u64) / 1000;
    proof {
        vstd::arithmetic::div_mod::lemma_div_is_ordered(
            1000,
            window_ms as int * sample_rate as int,
            1000,
        );
        vstd::arithmetic::div_mod::lemma_div_is_ordered(
            window_ms as int * sample_rate as int,
            1000 * (WAVE_MAX_WINDOW_SAMPLES as int),
            1000,
        );
        vstd::arithmetic::div_mod::lemma_div_multiples_vanish(WAVE_MAX_WINDOW_SAMPLES as int, 1000);
        vstd::arithmetic::div_mod::lemma_div_multiples_vanish(1, 1000);
    }
    w64 as usize
}

/// The default waveform-view detector: a per-pixel min/max envelope over the
/// left/mono stream, written incrementally into the scrolling plot. Modes
/// other than `MonoOrLeftOnly` leave the plots untouched.
pub struct PeakDetector {
    params: Params,
    agg: ChannelAgg,
}

impl PeakDetector {
    /// The configuration.
    pub closed spec fn params_spec(&self) -> Params {
        self.params
    }

    /// The in-progress aggregation, with nothing attributed as emitted.
    pub closed spec fn agg_state(&self) -> WaveModel {
        self.agg.model(Seq::empty())
    }

    /// Consistency of the configuration and the aggregation.
    pub closed spec fn wf(&self) -> bool {
        &&& self.params.wf()
        &&& self.agg.wf(self.params.window_spec())
    }

    /// The detection mode.
    pub closed spec fn mode_spec(&self) -> Mode {
        self.params.mode_spec()
    }

    /// The window length, in samples.
    pub closed spec fn window_spec(&self) -> int {
        self.params.window_spec()
    }

    /// The linear gain, kept for the rendering layer.
    pub closed spec fn gain_spec(&self) -> int {
        self.params.gain_spec()
    }

    /// Creates a detector with a fresh aggregation.
    pub fn new(gain: u32, mode: Mode, sample_rate: u32, window_ms: u32) -> (d: PeakDetector)
        requires
            1000 <= window_ms * sample_rate,
            window_ms * sample_rate <= 1000 * WAVE_MAX_WINDOW_SAMPLES,
        ensures
            d.wf(),
            d.mode_spec() == mode,
            d.gain_spec() == gain,
            d.window_spec() == window_ms as int * sample_rate as int / 1000,
            d.agg_state() == wave_fresh(),
    {
        PeakDetector { params: Params::new(gain, mode, sample_rate, window_ms), agg: agg_fresh() }
    }

    /// Switches the detection mode; the aggregation is kept.
    pub fn set_mode(&mut self, mode: Mode)
        requires
            old(self).wf(),
        ensures
            final(self).wf(),
            final(self).mode_spec() == mode,
            final(self).window_spec() == old(self).window_spec(),
            final(self).gain_spec() == old(self).gain_spec(),
            final(self).agg_state() == old(self).agg_state(),
    {
        self.params.mode = mode;
    }

    /// Adopts a new window size, resetting the in-progress aggregation: its
    /// pacing is no longer valid.
    pub fn set_window_size(&mut self, window_ms: u32)
        requires
            old(self).wf(),
            1000 <= window_ms * old(self).params_spec().sample_rate_spec(),
            window_ms * old(self).params_spec().sample_rate_spec() <= 1000
                * WAVE_MAX_WINDOW_SAMPLES,
        ensures
            final(self).wf(),
            final(self).mode_spec() == old(self).mode_spec(),
            final(self).gain_spec() == old(self).gain_spec(),
            final(self).window_spec() == window_ms as int * old(
                self,
            ).params_spec().sample_rate_spec() / 1000,
            final(self).agg_state() == wave_fresh(),
    {
        self.params.window_ms = window_ms;
        self.params.window_samples = wave_derive_window(window_ms, self.params.sample_rate);
        self.agg = agg_fresh();
    }

    /// Adopts a new sample rate, resetting the in-progress aggregation.
    pub fn set_sample_rate(&mut self, sample_rate: u32)
        requires
            old(self).wf(),
            1000 <= old(self).params_spec().window_ms_spec() * sample_rate,
            old(self).params_spec().window_ms_spec() * sample_rate <= 1000
                * WAVE_MAX_WINDOW_SAMPLES,
        ensures
            final(self).wf(),
            final(self).mode_spec() == old(self).mode_spec(),
            final(self).gain_spec() == old(self).gain_spec(),
            final(self).window_spec() == old(self).params_spec().window_ms_spec() * sample_rate
                / 1000,
            final(self).agg_state() == wave_fresh(),
    {
        self.params.sample_rate = sample_rate;
        self.params.window_samples = wave_derive_window(self.params.window_ms, sample_rate);
        self.agg = agg_fresh();
    }

    /// Adopts a new gain; the envelope itself is unscaled.
    pub fn set_gain(&mut self, gain: u32)
        requires
            old(self).wf(),
        ensures
            final(self).wf(),
            final(self).gain_spec() == gain,
            final(self).mode_spec() == old(self).mode_spec(),
            final(self).window_spec() == old(self).window_spec(),
            final(self).agg_state() == old(self).agg_state(),
    {
        self.params.gain = gain;
    }

    /// Resets the in-progress aggregation.
    pub fn clear(&mut self)
        requires
            old(self).wf(),
        ensures
            final(self).wf(),
            final(self).mode_spec() == old(self).mode_spec(),
            final(self).gain_spec() == old(self).gain_spec(),
            final(self).window_spec() == old(self).window_spec(),
            final(self).agg_state() == wave_fresh(),
    {
        self.agg = agg_fresh();
    }

    /// Feeds the left/mono stream's unread samples through the envelope
    /// aggregation and scrolls the newly due points into the left plot. In
    /// any other mode, or when plotting is skipped, nothing changes.
    pub fn process(
        &mut self,
        left_stream: &RingChannel,
        right_stream: Option<&RingChannel>,
        left_plot: &mut Plot,
        right_plot: &mut Option<Plot>,
        skip_plotting: bool,
    )
        requires
            old(self).wf(),
            left_stream.wf(),
            right_stream is Some ==> right_stream->0.wf(),
            old(left_plot).wf(),
            (*old(right_plot)) is Some ==> (*old(right_plot))->0.wf(),
        ensures
            final(self).wf(),
            final(self).mode_spec() == old(self).mode_spec(),
            final(self).window_spec() == old(self).window_spec(),
            final(self).gain_spec() == old(self).gain_spec(),
            final(left_plot).wf(),
            *final(right_plot) == *old(right_plot),
            if old(self).mode_spec() == Mode::MonoOrLeftOnly && !skip_plotting {
                let m1 = wave_feed_all(
                    old(self).agg_state(),
                    left_stream@,
                    old(self).window_spec(),
                    old(left_plot).points().len() as int,
                );
                &&& final(self).agg_state() == WaveModel {
                    emitted: Seq::empty(),
                    acc: m1.acc,
                    cur_max: m1.cur_max,
                    cur_min: m1.cur_min,
                }
                &&& final(left_plot).points() == (old(left_plot).points() + m1.emitted).skip(
                    m1.emitted.len() as int,
                )
            } else {
                &&& final(self).agg_state() == old(self).agg_state()
                &&& final(left_plot).points() == old(left_plot).points()
            },
    {
        if self.params.mode == Mode::MonoOrLeftOnly && !skip_plotting {
            let w = self.params.window_samples;
            proof {
                left_plot.lemma_wf_len();
            }
            let l = left_plot.len();
            let (s1, s2) = left_stream.read_access();
            let pts = agg_feed_segments(&mut self.agg, s1, s2, w, l);
            left_plot.write_to_next(pts.as_slice());
        }
    }
}

} // verus!
