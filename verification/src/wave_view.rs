//! The scrolling waveform view: per-pixel min/max envelope pairs written
//! incrementally into a ring of plot points, newest at the end.

use vstd::prelude::*;

pub mod peak_detector;

use crate::plot_ring::plot_data;
use crate::ring_channel::RingChannel;
use crate::plot_ring::srb_as_slices;
use crate::plot_ring::srb_len;
use crate::plot_ring::srb_new;
use crate::plot_ring::srb_set;

verus! {

/// Largest accepted waveform plot resolution, in points.
pub const WAVE_MAX_RESOLUTION: usize = 0x10000;

/// One envelope point: the largest and smallest sample over one output
/// pixel's time slice.
#[derive(Copy, Clone, PartialEq, Eq, Structural, Debug)]
pub struct PlotPoint {
    /// The maximum value at that point.
    pub max: i16,
    /// The minimum value at that point.
    pub min: i16,
}

impl Default for PlotPoint {
    /// The zero envelope.
    fn default() -> (p: PlotPoint)
        ensures
            p.max == 0 && p.min == 0,
    {
        PlotPoint { max: 0, min: 0 }
    }
}

/// Envelope points as the plain pairs the ring stores.
pub open spec fn pairs_of(s: Seq<PlotPoint>) -> Seq<(i16, i16)> {
    s.map_values(|p: PlotPoint| (p.max, p.min))
}

/// A fixed-resolution scrolling ring of envelope points, oldest first.
pub struct Plot {
    buffer: slice_ring_buf::SliceRB<(i16, i16)>,
    start_index: isize,
}

impl Plot {
    /// The envelope points in chronological order, oldest first, as
    /// `(max, min)` pairs.
    pub closed spec fn points(&self) -> Seq<(i16, i16)> {
        Seq::new(
            plot_data(self.buffer).len(),
            |k: int|
                plot_data(self.buffer)[(self.start_index + k) % (plot_data(
                    self.buffer,
                ).len() as int)],
        )
    }

    /// Consistency of the cursor with the fixed-resolution storage.
    pub closed spec fn wf(&self) -> bool {
        &&& 1 <= plot_data(self.buffer).len() <= WAVE_MAX_RESOLUTION
        &&& 0 <= self.start_index < plot_data(self.buffer).len()
    }

    /// Creates a plot of `resolution` zero envelope points.
    pub fn new(resolution: usize) -> (p: Plot)
        requires
            1 <= resolution <= WAVE_MAX_RESOLUTION,
        ensures
            p.wf(),
            p.points().len() == resolution,
            forall|k: int| 0 <= k < p.points().len() ==> p.points()[k] == (0i16, 0i16),
    {
        let buffer = srb_new(resolution, (0i16, 0i16));
        let p = Plot { buffer, start_index: 0 };
        proof {
            assert forall|k: int| 0 <= k < p.points().len() implies p.points()[k] == (
            0i16,
            0i16,
            ) by {
                vstd::arithmetic::div_mod::lemma_mod_bound(k, resolution as int);
            }
        }
        p
    }

    /// A consistent plot holds at least one point and at most the resolution
    /// budget.
    pub proof fn lemma_wf_len(&self)
        requires
            self.wf(),
        ensures
            1 <= self.points().len() <= WAVE_MAX_RESOLUTION,
    {
    }

    /// The plot's fixed resolution.
    pub fn len(&self) -> (n: usize)
        requires
            self.wf(),
        ensures
            n == self.points().len(),
    {
        srb_len(&self.buffer)
    }

    /// Writes one new envelope point over the oldest, scrolling the plot.
    fn push_point(&mut self, p: PlotPoint)
        requires
            old(self).wf(),
        ensures
            final(self).wf(),
            final(self).points() == old(self).points().skip(1).push((p.max, p.min)),
    {
        let len = srb_len(&self.buffer);
        srb_set(&mut self.buffer, self.start_index, (p.max, p.min));
        self.start_index = if self.start_index + 1 == len as isize {
            0
        } else {
            self.start_index + 1
        };
        proof {
            let l = plot_data(self.buffer).len() as int;
            let s0 = old(self).start_index as int;
            let s1 = self.start_index as int;
            vstd::arithmetic::div_mod::lemma_small_mod(s0 as nat, l as nat);
            assert forall|k: int| 0 <= k < l implies self.points()[k] == old(self).points().skip(
                1,
            ).push((p.max, p.min))[k] by {
                if k < l - 1 {
                    assert((s1 + k) % l == (s0 + (k + 1)) % l) by (nonlinear_arith)
                        requires
                            0 <= s0 < l,
                            s1 == (if s0 + 1 == l {
                                0int
                            } else {
                                s0 + 1
                            }),
                            0 <= k < l - 1,
                    {}
                    assert((s0 + (k + 1)) % l != s0 % l) by (nonlinear_arith)
                        requires
                            0 <= s0 < l,
                            0 < k + 1 < l,
                    {}
                    vstd::arithmetic::div_mod::lemma_mod_bound(s0 + (k + 1), l);
                } else {
                    if s0 + 1 == l {
                        vstd::arithmetic::div_mod::lemma_small_mod((l - 1) as nat, l as nat);
                    } else {
                        vstd::arithmetic::div_mod::lemma_mod_multiples_vanish(1, s0, l);
                    }
                }
            }
            assert(self.points() =~= old(self).points().skip(1).push((p.max, p.min)));
        }
    }

    /// Appends a batch of new envelope points, overwriting the oldest: the
    /// plot afterwards holds the newest `resolution` points of "what it held,
    /// then the batch".
    pub fn write_to_next(&mut self, pts: &[PlotPoint])
        requires
            old(self).wf(),
        ensures
            final(self).wf(),
            final(self).points() == (old(self).points() + pairs_of(pts@)).skip(pts@.len() as int),
    {
        let ghost held = self.points();
        let mut i: usize = 0;
        while i < pts.len()
            invariant
                i <= pts@.len(),
                self.wf(),
                self.points() =~= (held + pairs_of(pts@.take(i as int))).skip(i as int),
            decreases pts@.len() - i,
        {
            let p = *vstd::slice::slice_index_get(pts, i);
            self.push_point(p);
            i = i + 1;
            proof {
                assert((held + pairs_of(pts@.take(i as int))).skip(i as int) =~= ((held + pairs_of(
                    pts@.take(i - 1),
                )).skip(i - 1)).skip(1).push((pts@[i - 1].max, pts@[i - 1].min)));
            }
        }
        proof {
            assert(pts@.take(pts@.len() as int) =~= pts@);
        }
    }

    /// The whole envelope, oldest first, as at most two borrowed slices of
    /// `(max, min)` pairs.
    pub fn get_plot(&self) -> (slices: (&[(i16, i16)], &[(i16, i16)]))
        requires
            self.wf(),
        ensures
            slices.0@ + slices.1@ == self.points(),
    {
        let slices = srb_as_slices(&self.buffer, self.start_index);
        proof {
            let l = plot_data(self.buffer).len() as int;
            let s = self.start_index as int;
            vstd::arithmetic::div_mod::lemma_small_mod(s as nat, l as nat);
            assert forall|k: int| 0 <= k < l implies (slices.0@ + slices.1@)[k]
                == self.points()[k] by {
                if k < l - s {
                    assert((s + k) % l == s + k) by (nonlinear_arith)
                        requires
                            0 <= s + k < l,
                    {}
                } else {
                    assert((s + k) % l == s + k - l) by (nonlinear_arith)
                        requires
                            l <= s + k < 2 * l,
                    {}
                }
            }
            assert(slices.0@ + slices.1@ =~= self.points());
        }
        slices
    }
}

/// The local state of a waveform view: its plot rings and which channels
/// carried data last frame.
pub struct State {
    left_plot: Plot,
    right_plot: Option<Plot>,
    left_active: bool,
    right_active: bool,
    is_dual: bool,
}

impl State {
    /// The left (or combined) plot's envelope points.
    pub closed spec fn left_points(&self) -> Seq<(i16, i16)> {
        self.left_plot.points()
    }

    /// The right plot's envelope points, if the state holds two plots.
    pub closed spec fn right_points(&self) -> Option<Seq<(i16, i16)>> {
        match self.right_plot {
            Some(p) => Some(p.points()),
            None => None,
        }
    }

    /// Whether the left stream carried data last frame.
    pub closed spec fn left_active_spec(&self) -> bool {
        self.left_active
    }

    /// Whether the right stream carried data last frame.
    pub closed spec fn right_active_spec(&self) -> bool {
        self.right_active
    }

    /// Whether the state holds two plots.
    pub closed spec fn is_dual_spec(&self) -> bool {
        self.is_dual
    }

    /// Consistency of the plot rings.
    pub closed spec fn wf(&self) -> bool {
        &&& self.left_plot.wf()
        &&& (self.right_plot is Some <==> self.is_dual)
        &&& (self.right_plot is Some ==> self.right_plot->0.wf())
    }

    /// Creates a state with `resolution` envelope points: one plot, or two
    /// when `dual_plots` asks for separate left and right plots.
    pub fn new(resolution: usize, dual_plots: bool) -> (s: State)
        requires
            1 <= resolution <= WAVE_MAX_RESOLUTION,
        ensures
            s.wf(),
            s.left_points().len() == resolution,
            s.is_dual_spec() == dual_plots,
            s.right_points() is Some <==> dual_plots,
            !s.left_active_spec(),
            !s.right_active_spec(),
    {
        let right_plot: Option<Plot> = if dual_plots {
            Some(Plot::new(resolution))
        } else {
            None
        };
        State {
            left_plot: Plot::new(resolution),
            right_plot,
            left_active: false,
            right_active: false,
            is_dual: dual_plots,
        }
    }

    /// The left (or combined) plot, for the rendering layer.
    pub fn left_plot(&self) -> (p: &Plot)
        ensures
            p.points() == self.left_points(),
            self.wf() ==> p.wf(),
    {
        &self.left_plot
    }

    /// The right plot, if the state holds two, for the rendering layer.
    pub fn right_plot(&self) -> (p: &Option<Plot>)
        ensures
            *p is Some <==> self.right_points() is Some,
            *p is Some ==> (*p)->0.points() == self.right_points()->0,
    {
        &self.right_plot
    }

    /// Whether the left stream carried data last frame.
    pub fn left_active(&self) -> (b: bool)
        ensures
            b == self.left_active_spec(),
    {
        self.left_active
    }

    /// Whether the right stream carried data last frame.
    pub fn right_active(&self) -> (b: bool)
        ensures
            b == self.right_active_spec(),
    {
        self.right_active
    }

    /// Whether the state holds two plots.
    pub fn is_dual(&self) -> (b: bool)
        ensures
            b == self.is_dual_spec(),
    {
        self.is_dual
    }
}

/// Drives a waveform detector once per rendered frame, pulling from the
/// streams and updating a waveform [`State`].
pub struct Animator {
    /// The current detector.
    pub detector: peak_detector::PeakDetector,
}

impl Animator {
    /// Creates an animator around a detector.
    pub fn new(detector: peak_detector::PeakDetector) -> (a: Animator)
        ensures
            a.detector == detector,
    {
        Animator { detector }
    }

    /// Advances one frame: marks which streams are active and, when the left
    /// stream is present, feeds it through the detector into the state's
    /// plots. With no left stream nothing is processed.
    pub fn update(
        &mut self,
        state: &mut State,
        left_stream: Option<&RingChannel>,
        right_stream: Option<&RingChannel>,
        skip_plotting: bool,
    )
        requires
            old(self).detector.wf(),
            old(state).wf(),
            left_stream is Some ==> left_stream->0.wf(),
            right_stream is Some ==> right_stream->0.wf(),
        ensures
            final(self).detector.wf(),
            final(state).wf(),
            final(state).is_dual_spec() == old(state).is_dual_spec(),
            final(state).left_active_spec() == left_stream is Some,
            final(state).right_active_spec() == right_stream is Some,
            final(state).right_points() == old(state).right_points(),
            match left_stream {
                None => {
                    &&& final(self).detector == old(self).detector
                    &&& final(state).left_points() == old(state).left_points()
                },
                Some(ls) => if old(self).detector.mode_spec()
                    == peak_detector::Mode::MonoOrLeftOnly && !skip_plotting {
                    let m1 = peak_detector::wave_feed_all(
                        old(self).detector.agg_state(),
                        ls@,
                        old(self).detector.window_spec(),
                        old(state).left_points().len() as int,
                    );
                    &&& final(state).left_points() == (old(state).left_points()
                        + m1.emitted).skip(m1.emitted.len() as int)
                    &&& final(self).detector.agg_state() == peak_detector::WaveModel {
                        emitted: Seq::empty(),
                        acc: m1.acc,
                        cur_max: m1.cur_max,
                        cur_min: m1.cur_min,
                    }
                } else {
                    &&& final(state).left_points() == old(state).left_points()
                    &&& final(self).detector.agg_state() == old(self).detector.agg_state()
                },
            },
    {
        if let Some(left_stream) = left_stream {
            state.left_active = true;
            self.detector.process(
                left_stream,
                right_stream,
                &mut state.left_plot,
                &mut state.right_plot,
                skip_plotting,
            );
        } else {
            state.left_active = false;
        }
        state.right_active = right_stream.is_some();
    }

    /// Resets the detector's in-progress aggregation.
    pub fn clear(&mut self)
        requires
            old(self).detector.wf(),
        ensures
            final(self).detector.wf(),
            final(self).detector.agg_state() == peak_detector::wave_fresh(),
    {
        self.detector.clear();
    }

    /// Updates the window size, in milliseconds: the window length is
    /// rederived and the in-progress aggregation reset.
    pub fn set_window_size(&mut self, window_ms: u32)
        requires
            old(self).detector.wf(),
            1000 <= window_ms * old(self).detector.params_spec().sample_rate_spec(),
            window_ms * old(self).detector.params_spec().sample_rate_spec() <= 1000
                * peak_detector::WAVE_MAX_WINDOW_SAMPLES,
        ensures
            final(self).detector.wf(),
            final(self).detector.mode_spec() == old(self).detector.mode_spec(),
            final(self).detector.gain_spec() == old(self).detector.gain_spec(),
            final(self).detector.window_spec() == window_ms as int * old(
                self,
            ).detector.params_spec().sample_rate_spec() / 1000,
            final(self).detector.agg_state() == peak_detector::wave_fresh(),
    {
        self.detector.set_window_size(window_ms);
    }

    /// Updates the sample rate, in Hz: the window length is rederived and the
    /// in-progress aggregation reset.
    pub fn set_sample_rate(&mut self, sample_rate: u32)
        requires
            old(self).detector.wf(),
            1000 <= old(self).detector.params_spec().window_ms_spec() * sample_rate,
            old(self).detector.params_spec().window_ms_spec() * sample_rate <= 1000
                * peak_detector::WAVE_MAX_WINDOW_SAMPLES,
        ensures
            final(self).detector.wf(),
            final(self).detector.mode_spec() == old(self).detector.mode_spec(),
            final(self).detector.gain_spec() == old(self).detector.gain_spec(),
            final(self).detector.window_spec() == old(
                self,
            ).detector.params_spec().window_ms_spec() * sample_rate / 1000,
            final(self).detector.agg_state() == peak_detector::wave_fresh(),
    {
        self.detector.set_sample_rate(sample_rate);
    }

    /// Updates the input gain, kept for the rendering layer; the aggregation
    /// is untouched.
    pub fn set_gain(&mut self, gain: u32)
        requires
            old(self).detector.wf(),
        ensures
            final(self).detector.wf(),
            final(self).detector.gain_spec() == gain,
            final(self).detector.mode_spec() == old(self).detector.mode_spec(),
            final(self).detector.window_spec() == old(self).detector.window_spec(),
            final(self).detector.agg_state() == old(self).detector.agg_state(),
    {
        self.detector.set_gain(gain);
    }
}

} // verus!
