//! The oscilloscope view: a phase-locked, windowed plot of recent audio.
//!
//! A detector keeps a rolling history of samples per channel; once per output
//! window it resamples a fixed-resolution slice of that history, with linear
//! interpolation and gain, into the plot buffers held by [`State`].

use vstd::prelude::*;

pub mod default_detector;

use crate::oscilloscope::default_detector::frame_post;
use crate::oscilloscope::default_detector::DefaultDetector;
use crate::oscilloscope::default_detector::GAIN_MAX;
use crate::oscilloscope::default_detector::MAX_PLOT_RESOLUTION;
use crate::oscilloscope::default_detector::MAX_WINDOW_SAMPLES;
use crate::ring_channel::RingChannel;
use crate::Normal;

verus! {

/// The local state of an oscilloscope view: its plot buffers and which
/// channels carried data last frame.
pub struct State {
    left_plot: Vec<i64>,
    right_plot: Option<Vec<i64>>,
    left_active: bool,
    right_active: bool,
    is_dual: bool,
}

impl State {
    /// The left (or combined) plot.
    pub closed spec fn left_plot_spec(&self) -> Seq<i64> {
        self.left_plot@
    }

    /// The right plot, if the state was created with two.
    pub closed spec fn right_plot_spec(&self) -> Option<Seq<i64>> {
        match self.right_plot {
            Some(p) => Some(p@),
            None => None,
        }
    }

    /// Whether the left stream carried data last frame.
    pub closed spec fn left_active_spec(&self) -> bool {
        self.left_active
    }

    /// Whether the right stream carried data last frame.
    pub closed spec fn right_active_spec(&self) -> bool {
        self.right_active
    }

    /// Whether the state holds two plots.
    pub closed spec fn is_dual_spec(&self) -> bool {
        self.is_dual
    }

    /// Plot sizing consistency: both plots (when two exist) share one
    /// resolution within the budget.
    pub closed spec fn wf(&self) -> bool {
        &&& self.left_plot@.len() <= MAX_PLOT_RESOLUTION
        &&& (self.right_plot is Some <==> self.is_dual)
        &&& (self.right_plot is Some ==> self.right_plot->0@.len() == self.left_plot@.len())
    }

    /// Creates a state with `resolution` plot points: one plot, or two when
    /// `dual_plots` asks for separate left and right plots.
    pub fn new(resolution: usize, dual_plots: bool) -> (s: State)
        requires
            resolution <= MAX_PLOT_RESOLUTION,
        ensures
            s.wf(),
            s.left_plot_spec() == Seq::new(resolution as nat, |i: int| 0i64),
            s.is_dual_spec() == dual_plots,
            s.right_plot_spec() == if dual_plots {
                Some(Seq::new(resolution as nat, |i: int| 0i64))
            } else {
                None::<Seq<i64>>
            },
            !s.left_active_spec(),
            !s.right_active_spec(),
    {
        let mut left_plot: Vec<i64> = Vec::new();
        left_plot.resize(resolution, 0i64);
        let right_plot: Option<Vec<i64>> = if dual_plots {
            let mut p: Vec<i64> = Vec::new();
            p.resize(resolution, 0i64);
            proof {
                assert(p@ =~= Seq::new(resolution as nat, |i: int| 0i64));
            }
            Some(p)
        } else {
            None
        };
        proof {
            assert(left_plot@ =~= Seq::new(resolution as nat, |i: int| 0i64));
        }
        State { left_plot, right_plot, left_active: false, right_active: false, is_dual: dual_plots }
    }

    /// The left (or combined) plot, for the rendering layer.
    pub fn left_plot(&self) -> (p: &Vec<i64>)
        ensures
            p@ == self.left_plot_spec(),
    {
        &self.left_plot
    }

    /// The right plot, if the state holds two, for the rendering layer.
    pub fn right_plot(&self) -> (p: &Option<Vec<i64>>)
        ensures
            *p is Some <==> self.right_plot_spec() is Some,
            *p is Some ==> (*p)->0@ == self.right_plot_spec()->0,
    {
        &self.right_plot
    }

    /// Whether the left stream carried data last frame.
    pub fn left_active(&self) -> (b: bool)
        ensures
            b == self.left_active_spec(),
    {
        self.left_active
    }

    /// Whether the right stream carried data last frame.
    pub fn right_active(&self) -> (b: bool)
        ensures
            b == self.right_active_spec(),
    {
        self.right_active
    }

    /// Whether the state holds two plots.
    pub fn is_dual(&self) -> (b: bool)
        ensures
            b == self.is_dual_spec(),
    {
        self.is_dual
    }
}

/// Drives a detector once per rendered frame, pulling from the streams and
/// updating an oscilloscope [`State`].
pub struct Animator {
    /// The current detector.
    pub detector: DefaultDetector,
}

impl Animator {
    /// Creates an animator around a detector.
    pub fn new(detector: DefaultDetector) -> (a: Animator)
        ensures
            a.detector == detector,
    {
        Animator { detector }
    }

    /// Advances one frame: marks which streams are active and, when the left
    /// stream is present, feeds both streams through the detector into the
    /// state's plots. With no left stream nothing is processed.
    pub fn update(
        &mut self,
        state: &mut State,
        left_stream: Option<&RingChannel>,
        right_stream: Option<&RingChannel>,
        skip_plotting: bool,
    )
        requires
            old(self).detector.wf(),
            old(state).wf(),
            left_stream is Some ==> left_stream->0.wf(),
            right_stream is Some ==> right_stream->0.wf(),
        ensures
            final(self).detector.wf(),
            final(state).wf(),
            final(state).is_dual_spec() == old(state).is_dual_spec(),
            final(state).left_active_spec() == left_stream is Some,
            final(state).right_active_spec() == right_stream is Some,
            final(state).left_plot_spec().len() == old(state).left_plot_spec().len(),
            match left_stream {
                None => {
                    &&& final(self).detector == old(self).detector
                    &&& final(state).left_plot_spec() == old(state).left_plot_spec()
                    &&& final(state).right_plot_spec() == old(state).right_plot_spec()
                },
                Some(ls) => frame_post(
                    old(self).detector,
                    final(self).detector,
                    ls@,
                    match right_stream {
                        Some(rs) => Some(rs@),
                        None => None,
                    },
                    old(state).left_plot_spec(),
                    final(state).left_plot_spec(),
                    old(state).right_plot_spec(),
                    final(state).right_plot_spec(),
                    skip_plotting,
                ),
            },
    {
        if let Some(left_stream) = left_stream {
            state.left_active = true;
            self.detector.process(
                left_stream,
                right_stream,
                &mut state.left_plot,
                &mut state.right_plot,
                skip_plotting,
            );
        } else {
            state.left_active = false;
        }
        state.right_active = right_stream.is_some();
    }

    /// Clears the detector's history: every channel it keeps is zeroed with
    /// its cursors reset, and the configuration is untouched.
    pub fn clear(&mut self)
        requires
            old(self).detector.wf(),
        ensures
            final(self).detector.wf(),
            final(self).detector.mode_spec() == old(self).detector.mode_spec(),
            final(self).detector.window_spec() == old(self).detector.window_spec(),
            final(self).detector.gain_spec() == old(self).detector.gain_spec(),
            final(self).detector.phase_spec() == old(self).detector.phase_spec(),
            final(self).detector.left_model() is Some ==> default_detector::channel_is_fresh(
                final(self).detector.left_model()->0,
            ),
            final(self).detector.right_model() is Some ==> default_detector::channel_is_fresh(
                final(self).detector.right_model()->0,
            ),
    {
        self.detector.clear();
    }

    /// Updates the window size, in milliseconds: a changed size rederives the
    /// window length and resets all buffers; an unchanged one is a no-op.
    pub fn set_window_size(&mut self, window_ms: u32)
        requires
            old(self).detector.wf(),
            1000 <= window_ms * old(self).detector.sample_rate_spec(),
            window_ms * old(self).detector.sample_rate_spec() <= 1000 * MAX_WINDOW_SAMPLES,
        ensures
            final(self).detector.wf(),
            final(self).detector.mode_spec() == old(self).detector.mode_spec(),
            final(self).detector.sample_rate_spec() == old(self).detector.sample_rate_spec(),
            final(self).detector.gain_spec() == old(self).detector.gain_spec(),
            final(self).detector.phase_spec() == old(self).detector.phase_spec(),
            window_ms == old(self).detector.window_ms_spec() ==> final(self).detector == old(
                self,
            ).detector,
            window_ms != old(self).detector.window_ms_spec() ==> {
                &&& final(self).detector.window_ms_spec() == window_ms
                &&& final(self).detector.window_spec() == default_detector::window_samples_of(
                    window_ms as int,
                    old(self).detector.sample_rate_spec(),
                )
                &&& default_detector::fresh_buffers(final(self).detector)
            },
    {
        self.detector.set_window_size(window_ms);
    }

    /// Updates the sample rate, in Hz: a changed rate rederives the window
    /// length and resets all buffers; an unchanged one is a no-op.
    pub fn set_sample_rate(&mut self, sample_rate: u32)
        requires
            old(self).detector.wf(),
            1000 <= old(self).detector.window_ms_spec() * sample_rate,
            old(self).detector.window_ms_spec() * sample_rate <= 1000 * MAX_WINDOW_SAMPLES,
        ensures
            final(self).detector.wf(),
            final(self).detector.mode_spec() == old(self).detector.mode_spec(),
            final(self).detector.window_ms_spec() == old(self).detector.window_ms_spec(),
            final(self).detector.gain_spec() == old(self).detector.gain_spec(),
            final(self).detector.phase_spec() == old(self).detector.phase_spec(),
            sample_rate == old(self).detector.sample_rate_spec() ==> final(self).detector == old(
                self,
            ).detector,
            sample_rate != old(self).detector.sample_rate_spec() ==> {
                &&& final(self).detector.sample_rate_spec() == sample_rate
                &&& final(self).detector.window_spec() == default_detector::window_samples_of(
                    old(self).detector.window_ms_spec(),
                    sample_rate as int,
                )
                &&& default_detector::fresh_buffers(final(self).detector)
            },
    {
        self.detector.set_sample_rate(sample_rate);
    }

    /// Updates the input gain (in `GAIN_UNIT` units, not dB); it applies from
    /// the next rendered plot on, and touches no history.
    pub fn set_gain(&mut self, gain: u32)
        requires
            old(self).detector.wf(),
            gain <= GAIN_MAX,
        ensures
            final(self).detector.wf(),
            final(self).detector.gain_spec() == gain,
            final(self).detector.mode_spec() == old(self).detector.mode_spec(),
            final(self).detector.window_spec() == old(self).detector.window_spec(),
            final(self).detector.sample_rate_spec() == old(self).detector.sample_rate_spec(),
            final(self).detector.phase_spec() == old(self).detector.phase_spec(),
            final(self).detector.left_model() == old(self).detector.left_model(),
            final(self).detector.right_model() == old(self).detector.right_model(),
            final(self).detector.temps_spec() == old(self).detector.temps_spec(),
    {
        self.detector.set_gain(gain);
    }

    /// Updates the trigger phase; it applies from the next rendered plot on,
    /// and touches no history.
    pub fn set_phase(&mut self, phase: Normal)
        requires
            old(self).detector.wf(),
            phase.wf(),
        ensures
            final(self).detector.wf(),
            final(self).detector.phase_spec() == phase,
            final(self).detector.mode_spec() == old(self).detector.mode_spec(),
            final(self).detector.window_spec() == old(self).detector.window_spec(),
            final(self).detector.sample_rate_spec() == old(self).detector.sample_rate_spec(),
            final(self).detector.gain_spec() == old(self).detector.gain_spec(),
            final(self).detector.left_model() == old(self).detector.left_model(),
            final(self).detector.right_model() == old(self).detector.right_model(),
            final(self).detector.temps_spec() == old(self).detector.temps_spec(),
    {
        self.detector.set_phase(phase);
    }
}

} // verus!
