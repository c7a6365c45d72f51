//! The default oscilloscope detector: rolling per-channel history plus a
//! phase-locked resampler.
//!
//! All positions are held in 1/65536-sample fixed point. Plot values carry a
//! scale of `FRAC_UNIT * GAIN_UNIT` (so unity gain maps a sample `s` to
//! `s << 32`): the rendering stays division-free, which makes the output
//! exactly linear in the gain.

use vstd::prelude::*;

use crate::ring_channel::RingChannel;
use crate::ring_history::bmr_clear_set_len;
use crate::ring_history::bmr_constrain;
use crate::ring_history::bmr_get;
use crate::ring_history::bmr_len;
use crate::ring_history::bmr_new;
use crate::ring_history::bmr_write_latest_2;
use crate::ring_history::history_data;
use crate::ring_history::ring_overlay;
use crate::Normal;

verus! {

/// Subsample resolution: fixed-point positions count 1/65536ths of a sample.
pub const FRAC_UNIT: u64 = 0x10000;

/// The gain value that means unity.
pub const GAIN_UNIT: u32 = 0x10000;

/// Largest accepted gain: 256 times unity.
pub const GAIN_MAX: u32 = 0x100_0000;

/// Largest accepted window, in samples.
pub const MAX_WINDOW_SAMPLES: usize = 0x100_0000;

/// Largest accepted plot resolution, in points.
pub const MAX_PLOT_RESOLUTION: usize = 0x10000;

/// The detection mode of an oscilloscope detector.
#[derive(Debug, Copy, Clone, PartialEq, Eq, Structural)]
pub enum Mode {
    /// Use only the left/mono channel as the input.
    MonoOrLeftOnly,
    /// Use only the right channel as the input.
    RightOnly,
    /// Use both channels as input.
    Dual,
    /// Use both channels as input, but combine them into
    /// a mono signal. Uses more CPU.
    StereoToMono,
}

/// The trigger offset within the current window, in fixed point: the window
/// phase of the newest sample plus the configured trigger phase, wrapped back
/// into one window.
pub open spec fn trigger_offset_fp(window_phase: int, phase_units: int, w: int) -> int {
    let c = window_phase * 65536 + phase_units * w;
    if c >= w * 65536 {
        c - w * 65536
    } else {
        c
    }
}

/// The fixed-point read position of the first plotted sample: one whole
/// window plus the trigger offset back from the write cursor, wrapped into
/// the history buffer.
pub open spec fn plot_start_fp(buffer_i: int, offset_fp: int, w: int, len: int) -> int {
    (buffer_i * 65536 - (offset_fp + w * 65536)) % (len * 65536)
}

/// The fixed-point read position of plot point `i`: the points are spaced
/// `w / plot_len` samples apart across one window.
pub open spec fn plot_index_fp(start_fp: int, i: int, w: int, plot_len: int) -> int {
    start_fp + (i * w * 65536) / plot_len
}

/// Linear interpolation of the history at a fixed-point position, scaled by
/// the gain: `(s1 + (s2 - s1) * frac) * gain` in `FRAC_UNIT * GAIN_UNIT`
/// units, where `s1` and `s2` are the two nearest samples.
pub open spec fn lerp_gain(data: Seq<i16>, idx_fp: int, gain: int) -> int {
    let len = data.len() as int;
    let j = idx_fp / 65536;
    let frac = idx_fp % 65536;
    (data[j % len] * 65536 + (data[(j + 1) % len] - data[j % len]) * frac) * gain
}

/// The value of plot point `i`, given a channel's history and cursors and the
/// detector's parameters.
pub open spec fn plot_point_value(
    data: Seq<i16>,
    buffer_i: int,
    window_phase: int,
    phase_units: int,
    gain: int,
    w: int,
    plot_len: int,
    i: int,
) -> int {
    lerp_gain(
        data,
        plot_index_fp(
            plot_start_fp(
                buffer_i,
                trigger_offset_fp(window_phase, phase_units, w),
                w,
                data.len() as int,
            ),
            i,
            w,
            plot_len,
        ),
        gain,
    )
}

/// The mathematical state of one channel: its history buffer and cursors.
pub struct ChannelModel {
    /// The history storage.
    pub data: Seq<i16>,
    /// The raw index one past the newest sample.
    pub buffer_i: int,
    /// How far (in samples) the newest sample sits into the current window.
    pub window_phase: int,
}

/// A channel after a batch lands: the batch is written at the cursor, the
/// cursor advances modulo the storage, and the window phase advances modulo
/// the window.
pub open spec fn advance_model(m: ChannelModel, input: Seq<i16>, w: int) -> ChannelModel {
    ChannelModel {
        data: ring_overlay(m.data, input, m.buffer_i),
        buffer_i: (m.buffer_i + input.len()) % (m.data.len() as int),
        window_phase: (m.window_phase + input.len()) % w,
    }
}

/// Whether the batch carries the channel across a window boundary, so that a
/// plot refresh is due.
pub open spec fn plot_due(m: ChannelModel, input_len: int, w: int) -> bool {
    m.window_phase + input_len >= w
}

/// The full plot a channel renders: each point the interpolated, gain-scaled
/// history value at its position.
pub open spec fn rendered_plot(
    m: ChannelModel,
    gain: int,
    phase_units: int,
    w: int,
    plot_len: int,
) -> Seq<i64> {
    Seq::new(
        plot_len as nat,
        |i: int|
            plot_point_value(
                m.data,
                m.buffer_i,
                m.window_phase,
                phase_units,
                gain,
                w,
                plot_len,
                i,
            ) as i64,
    )
}

/// The window length in samples derived from a window in milliseconds and a
/// sample rate in Hz.
pub open spec fn window_samples_of(window_ms: int, sample_rate: int) -> int {
    window_ms * sample_rate / 1000
}

/// The detector's configuration: window, rate, gain, trigger phase and mode.
pub struct Params {
    window_ms: u32,
    window_samples: usize,
    sample_rate: u32,
    gain: u32,
    phase: Normal,
    mode: Mode,
}

impl Params {
    /// The window length, in samples.
    pub closed spec fn window_spec(&self) -> int {
        self.window_samples as int
    }

    /// The window length, in milliseconds.
    pub closed spec fn window_ms_spec(&self) -> int {
        self.window_ms as int
    }

    /// The sample rate, in Hz.
    pub closed spec fn sample_rate_spec(&self) -> int {
        self.sample_rate as int
    }

    /// The linear gain, in `GAIN_UNIT` units.
    pub closed spec fn gain_spec(&self) -> int {
        self.gain as int
    }

    /// The trigger phase.
    pub closed spec fn phase_spec(&self) -> Normal {
        self.phase
    }

    /// The detection mode.
    pub closed spec fn mode_spec(&self) -> Mode {
        self.mode
    }

    /// Consistency: the derived window length matches the configuration and
    /// every field is within the fixed-point budget.
    pub closed spec fn wf(&self) -> bool {
        &&& self.window_samples as int == window_samples_of(
            self.window_ms as int,
            self.sample_rate as int,
        )
        &&& 1 <= self.window_samples <= MAX_WINDOW_SAMPLES
        &&& self.gain <= GAIN_MAX
        &&& self.phase.wf()
    }

    /// Derives the window length in samples, rounding down.
    fn derive_window(window_ms: u32, sample_rate: u32) -> (w: usize)
        requires
            1000 <= window_ms * sample_rate,
            window_ms * sample_rate <= 1000 * MAX_WINDOW_SAMPLES,
        ensures
            w as int == window_samples_of(window_ms as int, sample_rate as int),
            1 <= w <= MAX_WINDOW_SAMPLES,
    {
        let w64 = (window_ms as u64) * (sample_rate as u64) / 1000;
        proof {
            vstd::arithmetic::div_mod::lemma_div_is_ordered(
                1000,
                window_ms as int * sample_rate as int,
                1000,
            );
            vstd::arithmetic::div_mod::lemma_div_is_ordered(
                window_ms as int * sample_rate as int,
                1000 * (MAX_WINDOW_SAMPLES as int),
                1000,
            );
            vstd::arithmetic::div_mod::lemma_div_multiples_vanish(MAX_WINDOW_SAMPLES as int, 1000);
            vstd::arithmetic::div_mod::lemma_div_multiples_vanish(1, 1000);
        }
        w64 as usize
    }

    /// Creates a configuration. The window is given in milliseconds and must
    /// come to between 1 and `MAX_WINDOW_SAMPLES` samples at the given rate.
    pub fn new(window_ms: u32, sample_rate: u32, gain: u32, phase: Normal, mode: Mode) -> (p:
        Params)
        requires
            1000 <= window_ms * sample_rate,
            window_ms * sample_rate <= 1000 * MAX_WINDOW_SAMPLES,
            gain <= GAIN_MAX,
            phase.wf(),
        ensures
            p.wf(),
            p.window_ms_spec() == window_ms,
            p.sample_rate_spec() == sample_rate,
            p.window_spec() == window_samples_of(window_ms as int, sample_rate as int),
            p.gain_spec() == gain,
            p.phase_spec() == phase,
            p.mode_spec() == mode,
    {
        let window_samples = Params::derive_window(window_ms, sample_rate);
        Params { window_ms, window_samples, sample_rate, gain, phase, mode }
    }

    /// Adopts a new window size, rederiving the window length.
    pub fn update_window_size(&mut self, window_ms: u32)
        requires
            old(self).wf(),
            1000 <= window_ms * old(self).sample_rate_spec(),
            window_ms * old(self).sample_rate_spec() <= 1000 * MAX_WINDOW_SAMPLES,
        ensures
            final(self).wf(),
            final(self).window_ms_spec() == window_ms,
            final(self).sample_rate_spec() == old(self).sample_rate_spec(),
            final(self).window_spec() == window_samples_of(
                window_ms as int,
                old(self).sample_rate_spec(),
            ),
            final(self).gain_spec() == old(self).gain_spec(),
            final(self).phase_spec() == old(self).phase_spec(),
            final(self).mode_spec() == old(self).mode_spec(),
    {
        self.window_ms = window_ms;
        self.window_samples = Params::derive_window(window_ms, self.sample_rate);
    }

    /// The window length, in samples.
    pub fn window_samples(&self) -> (w: usize)
        ensures
            w as int == self.window_spec(),
    {
        self.window_samples
    }

    /// The window length, in milliseconds.
    pub fn window_ms(&self) -> (ms: u32)
        ensures
            ms as int == self.window_ms_spec(),
    {
        self.window_ms
    }

    /// The sample rate, in Hz.
    pub fn sample_rate(&self) -> (sr: u32)
        ensures
            sr as int == self.sample_rate_spec(),
    {
        self.sample_rate
    }

    /// The linear gain, in `GAIN_UNIT` units.
    pub fn gain(&self) -> (g: u32)
        ensures
            g as int == self.gain_spec(),
    {
        self.gain
    }

    /// The trigger phase.
    pub fn phase(&self) -> (ph: Normal)
        ensures
            ph == self.phase_spec(),
    {
        self.phase
    }

    /// The detection mode.
    pub fn mode(&self) -> (m: Mode)
        ensures
            m == self.mode_spec(),
    {
        self.mode
    }

    /// Adopts a new detection mode.
    pub fn set_mode(&mut self, mode: Mode)
        requires
            old(self).wf(),
        ensures
            final(self).wf(),
            final(self).mode_spec() == mode,
            final(self).window_spec() == old(self).window_spec(),
            final(self).window_ms_spec() == old(self).window_ms_spec(),
            final(self).sample_rate_spec() == old(self).sample_rate_spec(),
            final(self).gain_spec() == old(self).gain_spec(),
            final(self).phase_spec() == old(self).phase_spec(),
    {
        self.mode = mode;
    }

    /// Adopts a new gain.
    pub fn set_gain(&mut self, gain: u32)
        requires
            old(self).wf(),
            gain <= GAIN_MAX,
        ensures
            final(self).wf(),
            final(self).gain_spec() == gain,
            final(self).mode_spec() == old(self).mode_spec(),
            final(self).window_spec() == old(self).window_spec(),
            final(self).window_ms_spec() == old(self).window_ms_spec(),
            final(self).sample_rate_spec() == old(self).sample_rate_spec(),
            final(self).phase_spec() == old(self).phase_spec(),
    {
        self.gain = gain;
    }

    /// Adopts a new trigger phase.
    pub fn set_phase(&mut self, phase: Normal)
        requires
            old(self).wf(),
            phase.wf(),
        ensures
            final(self).wf(),
            final(self).phase_spec() == phase,
            final(self).mode_spec() == old(self).mode_spec(),
            final(self).window_spec() == old(self).window_spec(),
            final(self).window_ms_spec() == old(self).window_ms_spec(),
            final(self).sample_rate_spec() == old(self).sample_rate_spec(),
            final(self).gain_spec() == old(self).gain_spec(),
    {
        self.phase = phase;
    }

    /// Adopts a new sample rate, rederiving the window length.
    pub fn update_sample_rate(&mut self, sample_rate: u32)
        requires
            old(self).wf(),
            1000 <= old(self).window_ms_spec() * sample_rate,
            old(self).window_ms_spec() * sample_rate <= 1000 * MAX_WINDOW_SAMPLES,
        ensures
            final(self).wf(),
            final(self).window_ms_spec() == old(self).window_ms_spec(),
            final(self).sample_rate_spec() == sample_rate,
            final(self).window_spec() == window_samples_of(
                old(self).window_ms_spec(),
                sample_rate as int,
            ),
            final(self).gain_spec() == old(self).gain_spec(),
            final(self).phase_spec() == old(self).phase_spec(),
            final(self).mode_spec() == old(self).mode_spec(),
    {
        self.sample_rate = sample_rate;
        self.window_samples = Params::derive_window(self.window_ms, sample_rate);
    }
}

/// One channel's rolling history and cursors.
pub struct Channel {
    buffer: bit_mask_ring_buf::BitMaskRB<i16>,
    window_phase: usize,
    buffer_i: isize,
}

impl Channel {
    /// The mathematical state.
    pub closed spec fn model(&self) -> ChannelModel {
        ChannelModel {
            data: history_data(self.buffer),
            buffer_i: self.buffer_i as int,
            window_phase: self.window_phase as int,
        }
    }

    /// Consistency with a window of `w` samples: the history holds at least
    /// two windows, and the cursors are in range.
    pub closed spec fn wf(&self, w: int) -> bool {
        &&& 1 <= w <= MAX_WINDOW_SAMPLES
        &&& 2 * w <= history_data(self.buffer).len() <= 0x800_0000
        &&& 0 <= self.buffer_i < history_data(self.buffer).len()
        &&& self.window_phase < w
    }

    /// A fresh channel: zeroed history of at least two windows, cursors at 0.
    fn new(w: usize) -> (c: Channel)
        requires
            1 <= w <= MAX_WINDOW_SAMPLES,
        ensures
            c.wf(w as int),
            c.model().buffer_i == 0,
            c.model().window_phase == 0,
            forall|p: int| 0 <= p < c.model().data.len() ==> c.model().data[p] == 0,
    {
        let buffer = bmr_new(2 * w, 0i16);
        Channel { buffer, window_phase: 0, buffer_i: 0 }
    }

    /// Zeroes the history and resets the cursors, keeping the window.
    fn clear(&mut self, w: usize)
        requires
            old(self).wf(w as int),
        ensures
            final(self).wf(w as int),
            final(self).model().buffer_i == 0,
            final(self).model().window_phase == 0,
            forall|p: int|
                0 <= p < final(self).model().data.len() ==> final(self).model().data[p] == 0,
    {
        bmr_clear_set_len(&mut self.buffer, 2 * w, 0i16);
        self.window_phase = 0;
        self.buffer_i = 0;
    }

    /// Writes the batch into the history and advances both cursors; reports
    /// whether the batch crossed a window boundary, making a plot refresh due.
    fn advance(&mut self, s1: &[i16], s2: &[i16], w: usize) -> (due: bool)
        requires
            old(self).wf(w as int),
            s1@.len() + s2@.len() <= 0x4000_0000,
        ensures
            final(self).wf(w as int),
            final(self).model() == advance_model(old(self).model(), s1@ + s2@, w as int),
            due == plot_due(old(self).model(), s1@.len() + s2@.len() as int, w as int),
    {
        bmr_write_latest_2(&mut self.buffer, s1, s2, self.buffer_i);
        let n = s1.len() + s2.len();
        self.buffer_i = bmr_constrain(&self.buffer, self.buffer_i + n as isize);
        let total = self.window_phase + n;
        let due = total >= w;
        self.window_phase = total % w;
        due
    }

    /// Resamples one window of history into the plot: for each point, the
    /// linearly interpolated sample at its fixed-point position, scaled by
    /// the gain. The plot keeps its length.
    fn render(&self, plot: &mut Vec<i64>, gain: u32, phase: &Normal, w: usize)
        requires
            self.wf(w as int),
            gain <= GAIN_MAX,
            phase.wf(),
            old(plot)@.len() <= MAX_PLOT_RESOLUTION,
        ensures
            final(plot)@ == rendered_plot(
                self.model(),
                gain as int,
                phase.units_spec(),
                w as int,
                old(plot)@.len() as int,
            ),
    {
        let ghost m = self.model();
        let plot_len = plot.len();
        let w64 = w as i64;
        let pu = phase.value() as i64;
        proof {
            assert(0 <= pu * w64 <= 65536 * w64) by (nonlinear_arith)
                requires
                    0 <= pu <= 65536,
                    0 <= w64 <= 0x100_0000,
            {}
        }
        let mut c = (self.window_phase as i64) * 65536 + pu * w64;
        if c >= w64 * 65536 {
            c = c - w64 * 65536;
        }
        let len = bmr_len(&self.buffer);
        let len64 = len as i64;
        let modulus = len64 * 65536;
        let raw = (self.buffer_i as i64) * 65536 + 2 * modulus - (c + w64 * 65536);
        let start = raw % modulus;
        proof {
            vstd::arithmetic::div_mod::lemma_mod_multiples_vanish(
                2,
                (self.buffer_i as int) * 65536 - (c as int + w as int * 65536),
                modulus as int,
            );
            vstd::arithmetic::div_mod::lemma_mod_bound(raw as int, modulus as int);
            assert(start as int == plot_start_fp(
                m.buffer_i,
                trigger_offset_fp(m.window_phase, phase.units_spec(), w as int),
                w as int,
                m.data.len() as int,
            ));
        }
        let mut i: usize = 0;
        while i < plot_len
            invariant
                i <= plot_len,
                plot_len == plot@.len(),
                plot_len <= MAX_PLOT_RESOLUTION,
                self.wf(w as int),
                m == self.model(),
                gain <= GAIN_MAX,
                phase.wf(),
                1 <= w <= MAX_WINDOW_SAMPLES,
                w64 == w as i64,
                len == m.data.len(),
                len64 == len as i64,
                modulus == len64 * 65536,
                0 <= start < modulus,
                start as int == plot_start_fp(
                    m.buffer_i,
                    trigger_offset_fp(m.window_phase, phase.units_spec(), w as int),
                    w as int,
                    m.data.len() as int,
                ),
                forall|k: int|
                    0 <= k < i ==> plot@[k] == plot_point_value(
                        m.data,
                        m.buffer_i,
                        m.window_phase,
                        phase.units_spec(),
                        gain as int,
                        w as int,
                        plot_len as int,
                        k,
                    ) as i64,
            decreases plot_len - i,
        {
            proof {
                assert(0 <= (i as i64) * w64 <= 0x10000 * 0x100_0000) by (nonlinear_arith)
                    requires
                        0 <= (i as i64) <= 0x10000,
                        0 <= w64 <= 0x100_0000,
                {}
                assert((i as int) * (w64 as int) * 65536 <= (plot_len as int) * ((w64 as int)
                    * 65536)) by (nonlinear_arith)
                    requires
                        0 <= (i as int) < (plot_len as int),
                        w64 >= 0,
                {}
                vstd::arithmetic::div_mod::lemma_div_is_ordered(
                    (i as int) * (w64 as int) * 65536,
                    (plot_len as int) * ((w64 as int) * 65536),
                    plot_len as int,
                );
                vstd::arithmetic::div_mod::lemma_div_multiples_vanish(
                    (w64 as int) * 65536,
                    plot_len as int,
                );
                vstd::arithmetic::div_mod::lemma_div_pos_is_pos(
                    (i as int) * (w64 as int) * 65536,
                    plot_len as int,
                );
            }
            let step = ((i as i64) * w64 * 65536) / (plot_len as i64);
            let idx = start + step;
            let j = idx / 65536;
            let frac = idx % 65536;
            proof {
                assert(w as int * 65536 <= modulus as int);
                assert(0 <= (j as int) < 2 * (len as int));
                assert(j as int % (m.data.len() as int) == (j as isize) as int % (
                m.data.len() as int));
            }
            let s1v = bmr_get(&self.buffer, j as isize) as i64;
            let s2v = bmr_get(&self.buffer, (j + 1) as isize) as i64;
            proof {
                assert(-0x2_0000_0000 <= ((s2v as int) - (s1v as int)) * (frac as int)
                    <= 0x2_0000_0000) by (nonlinear_arith)
                    requires
                        -0x10000 <= (s2v as int) - (s1v as int) <= 0x10000,
                        0 <= (frac as int) <= 0x10000,
                {}
            }
            let inner = s1v * 65536 + (s2v - s1v) * frac;
            proof {
                assert(-0x4_0000_0000 * 0x100_0000 <= (inner as int) * (gain as int)
                    <= 0x4_0000_0000 * 0x100_0000) by (nonlinear_arith)
                    requires
                        -0x4_0000_0000 <= (inner as int) <= 0x4_0000_0000,
                        0 <= (gain as int) <= 0x100_0000,
                {}
            }
            let v = inner * (gain as i64);
            plot.set(i, v);
            i = i + 1;
        }
        proof {
            assert(plot@ =~= rendered_plot(
                m,
                gain as int,
                phase.units_spec(),
                w as int,
                plot_len as int,
            ));
        }
    }
}

/// Largest magnitude a plot value can take: a full-scale interpolant under
/// the largest gain.
pub const PLOT_VALUE_MAX: i64 = 0x400_0000_0000_0000;

/// Every plot point value is bounded by [`PLOT_VALUE_MAX`].
pub proof fn lemma_plot_value_bounded(
    data: Seq<i16>,
    buffer_i: int,
    window_phase: int,
    phase_units: int,
    gain: int,
    w: int,
    plot_len: int,
    i: int,
)
    requires
        data.len() >= 1,
        0 <= gain <= GAIN_MAX,
    ensures
        -PLOT_VALUE_MAX <= plot_point_value(
            data,
            buffer_i,
            window_phase,
            phase_units,
            gain,
            w,
            plot_len,
            i,
        ) <= PLOT_VALUE_MAX,
{
    let idx = plot_index_fp(
        plot_start_fp(buffer_i, trigger_offset_fp(window_phase, phase_units, w), w, data.len() as int),
        i,
        w,
        plot_len,
    );
    let len = data.len() as int;
    let j = idx / 65536;
    let frac = idx % 65536;
    vstd::arithmetic::div_mod::lemma_mod_bound(idx, 65536);
    vstd::arithmetic::div_mod::lemma_mod_bound(j, len);
    vstd::arithmetic::div_mod::lemma_mod_bound(j + 1, len);
    let s1 = data[j % len] as int;
    let s2 = data[(j + 1) % len] as int;
    assert(-0x2_0000_0000 <= (s2 - s1) * frac <= 0x2_0000_0000) by (nonlinear_arith)
        requires
            -0x10000 <= s2 - s1 <= 0x10000,
            0 <= frac <= 0x10000,
    {}
    assert(-PLOT_VALUE_MAX <= (s1 * 65536 + (s2 - s1) * frac) * gain <= PLOT_VALUE_MAX)
        by (nonlinear_arith)
        requires
            -0x4_0000_0000 <= s1 * 65536 + (s2 - s1) * frac <= 0x4_0000_0000,
            0 <= gain <= 0x100_0000,
            PLOT_VALUE_MAX == 0x400_0000_0000_0000,
    {}
}

/// The plot is exactly linear in the gain: scaling the gain by a whole factor
/// scales every plot point value by exactly that factor.
pub proof fn lemma_plot_scales_with_gain(
    data: Seq<i16>,
    buffer_i: int,
    window_phase: int,
    phase_units: int,
    gain: int,
    k: int,
    w: int,
    plot_len: int,
    i: int,
)
    ensures
        plot_point_value(data, buffer_i, window_phase, phase_units, k * gain, w, plot_len, i) == k
            * plot_point_value(data, buffer_i, window_phase, phase_units, gain, w, plot_len, i),
{
    let idx = plot_index_fp(
        plot_start_fp(buffer_i, trigger_offset_fp(window_phase, phase_units, w), w, data.len() as int),
        i,
        w,
        plot_len,
    );
    let len = data.len() as int;
    let j = idx / 65536;
    let frac = idx % 65536;
    let inner = data[j % len] * 65536 + (data[(j + 1) % len] - data[j % len]) * frac;
    assert(inner * (k * gain) == k * (inner * gain)) by (nonlinear_arith) {}
}

/// A rendered plot keeps every value within the plot-value budget.
pub proof fn lemma_rendered_plot_bounded(
    m: ChannelModel,
    gain: int,
    phase_units: int,
    w: int,
    plot_len: int,
)
    requires
        m.data.len() >= 1,
        0 <= gain <= GAIN_MAX,
    ensures
        plot_values_bounded(rendered_plot(m, gain, phase_units, w, plot_len)),
{
    let s = rendered_plot(m, gain, phase_units, w, plot_len);
    assert forall|i: int| 0 <= i < s.len() implies -PLOT_VALUE_MAX <= #[trigger] s[i]
        <= PLOT_VALUE_MAX by {
        lemma_plot_value_bounded(
            m.data,
            m.buffer_i,
            m.window_phase,
            phase_units,
            gain,
            w,
            plot_len,
            i,
        );
    }
}

/// Exact division shifts by whole multiples of the divisor: when `P >= 0`
/// rides on top of `A >= 0` as `d * P`, quotient and remainder split cleanly.
proof fn lemma_div_shift(a: int, p: int, d: int)
    requires
        a >= 0,
        p >= 0,
        d >= 1,
    ensures
        (a + d * p) / d == a / d + p,
        (a + d * p) % d == a % d,
{
    vstd::arithmetic::div_mod::lemma_fundamental_div_mod(a, d);
    vstd::arithmetic::div_mod::lemma_mod_bound(a, d);
    assert(a + d * p == (a / d + p) * d + a % d) by (nonlinear_arith)
        requires
            a == d * (a / d) + a % d,
    {}
    vstd::arithmetic::div_mod::lemma_fundamental_div_mod_converse(
        a + d * p,
        d,
        a / d + p,
        a % d,
    );
}

/// The plot of a periodic history is itself periodic: if the history repeats
/// every `p` samples (around the ring) and `plot_period` plot points advance
/// exactly `p` samples (`plot_period * w == p * plot_len`), then every plot
/// point equals the one `plot_period` points earlier. This is what makes a
/// phase-locked display of a periodic signal stable.
pub proof fn lemma_plot_periodic_history(
    data: Seq<i16>,
    buffer_i: int,
    window_phase: int,
    phase_units: int,
    gain: int,
    w: int,
    plot_len: int,
    i: int,
    p: int,
    plot_period: int,
)
    requires
        data.len() >= 1,
        w >= 0,
        plot_len >= 1,
        i >= 0,
        p >= 0,
        plot_period >= 0,
        plot_period * w == p * plot_len,
        forall|j: int|
            #[trigger] data[(j + p) % (data.len() as int)] == data[j % (data.len() as int)],
    ensures
        plot_point_value(
            data,
            buffer_i,
            window_phase,
            phase_units,
            gain,
            w,
            plot_len,
            i + plot_period,
        ) == plot_point_value(data, buffer_i, window_phase, phase_units, gain, w, plot_len, i),
{
    let len = data.len() as int;
    let start = plot_start_fp(
        buffer_i,
        trigger_offset_fp(window_phase, phase_units, w),
        w,
        len,
    );
    let a = i * w * 65536;
    assert(i * w * 65536 >= 0) by (nonlinear_arith)
        requires
            i >= 0,
            w >= 0,
    {}
    assert((i + plot_period) * w * 65536 == a + plot_len * (p * 65536)) by (nonlinear_arith)
        requires
            a == i * w * 65536,
            plot_period * w == p * plot_len,
    {}
    lemma_div_shift(a, p * 65536, plot_len);
    let idx1 = plot_index_fp(start, i, w, plot_len);
    let idx2 = plot_index_fp(start, i + plot_period, w, plot_len);
    assert(idx2 == idx1 + 65536 * p);
    // The fixed-point shift is a whole number of samples: the interpolation
    // fraction is unchanged and the sample indices move by exactly `p`.
    let b = idx1 / 65536;
    let frac = idx1 % 65536;
    vstd::arithmetic::div_mod::lemma_fundamental_div_mod(idx1, 65536);
    vstd::arithmetic::div_mod::lemma_mod_bound(idx1, 65536);
    assert(idx2 == (b + p) * 65536 + frac) by (nonlinear_arith)
        requires
            idx1 == 65536 * b + frac,
            idx2 == idx1 + 65536 * p,
    {}
    vstd::arithmetic::div_mod::lemma_fundamental_div_mod_converse(idx2, 65536, b + p, frac);
    assert(data[(b + p) % len] == data[b % len]);
    assert(data[(b + 1 + p) % len] == data[(b + 1) % len]);
}

/// Halving toward zero, matching a hardware-style arithmetic shift of the
/// magnitude.
pub open spec fn half_toward_zero(v: int) -> int {
    if v >= 0 {
        v / 2
    } else {
        -((-v) / 2)
    }
}

/// A plot resized to `len` points: truncated, or padded with zeroes.
pub open spec fn resized_plot(s: Seq<i64>, len: int) -> Seq<i64> {
    if len <= s.len() {
        s.take(len)
    } else {
        s + Seq::new((len - s.len()) as nat, |i: int| 0i64)
    }
}

/// The point-by-point average of two equal-length plots, halved toward zero.
pub open spec fn averaged_plot(l: Seq<i64>, r: Seq<i64>, len: int) -> Seq<i64> {
    Seq::new(len as nat, |i: int| half_toward_zero(l[i] + r[i]) as i64)
}

/// Halves a value toward zero.
fn half_i64(v: i64) -> (h: i64)
    requires
        v != i64::MIN,
    ensures
        h as int == half_toward_zero(v as int),
{
    if v >= 0 {
        v / 2
    } else {
        -((-v) / 2)
    }
}

/// Resizes a plot buffer, truncating or padding with zeroes.
fn resize_plot(v: &mut Vec<i64>, len: usize)
    ensures
        final(v)@ == resized_plot(old(v)@, len as int),
        final(v)@.len() == len,
{
    v.truncate(len);
    proof {
        if len <= old(v)@.len() {
            assert(v@ =~= resized_plot(old(v)@, len as int));
        }
    }
    while v.len() < len
        invariant
            len <= old(v)@.len() ==> v@ == resized_plot(old(v)@, len as int),
            len > old(v)@.len() ==> {
                &&& old(v)@.len() <= v@.len() <= len
                &&& v@ == resized_plot(old(v)@, v@.len() as int)
            },
        decreases len - v@.len(),
    {
        v.push(0i64);
        proof {
            assert(v@ =~= resized_plot(old(v)@, v@.len() as int));
        }
    }
    proof {
        assert(v@ =~= resized_plot(old(v)@, len as int));
    }
}

/// Whether every value of a plot is within the plot-value budget.
pub open spec fn plot_values_bounded(s: Seq<i64>) -> bool {
    forall|i: int| 0 <= i < s.len() ==> -PLOT_VALUE_MAX <= #[trigger] s[i] <= PLOT_VALUE_MAX
}

/// The default oscilloscope detector: per-channel rolling history, a trigger
/// phase, and mode dispatch over mono, right-only, dual and stereo-to-mono
/// inputs.
pub struct DefaultDetector {
    params: Params,
    left_channel: Option<Channel>,
    right_channel: Option<Channel>,
    temp_plots: Option<(Vec<i64>, Vec<i64>)>,
}

/// What one frame of [`DefaultDetector::process`] does, per mode: `d0`/`d1`
/// are the detector before and after; `left_view`/`right_view` the streams'
/// unread samples; `lp0`/`lp1` the left plot before and after; `rp0`/`rp1`
/// the right plot before and after; `skip` whether rendering was suppressed.
pub open spec fn frame_post(
    d0: DefaultDetector,
    d1: DefaultDetector,
    left_view: Seq<i16>,
    right_view: Option<Seq<i16>>,
    lp0x: Seq<i64>,
    lp1: Seq<i64>,
    rp0: Option<Seq<i64>>,
    rp1: Option<Seq<i64>>,
    skip: bool,
) -> bool {
    let w = d0.window_spec();
    let g = d0.gain_spec();
    let ph = d0.phase_spec().units_spec();
    let lp0 = lp0x;
    match d0.mode_spec() {
        Mode::MonoOrLeftOnly => {
            let m0 = d0.left_model()->0;
            let m1 = advance_model(m0, left_view, w);
            let due = plot_due(m0, left_view.len() as int, w);
            &&& d1.left_model() == Some(m1)
            &&& if due && !skip {
                &&& lp1 == rendered_plot(m1, g, ph, w, lp0.len() as int)
                &&& (rp0 is Some ==> rp1->0 == lp1)
            } else {
                &&& lp1 == lp0
                &&& (rp0 is Some ==> rp1->0 == rp0->0)
            }
        },
        Mode::RightOnly => {
            &&& d1.left_model() is None
            &&& match right_view {
                None => {
                    &&& d1.right_model() == d0.right_model()
                    &&& lp1 == lp0
                    &&& (rp0 is Some ==> rp1->0 == rp0->0)
                },
                Some(rsv) => {
                    let m0 = d0.right_model()->0;
                    let m1 = advance_model(m0, rsv, w);
                    let due = plot_due(m0, rsv.len() as int, w);
                    &&& d1.right_model() == Some(m1)
                    &&& if due && !skip {
                        &&& lp1 == rendered_plot(
                            m1,
                            g,
                            ph,
                            w,
                            lp0.len() as int,
                        )
                        &&& (rp0 is Some ==> rp1->0
                            == lp1)
                    } else {
                        &&& lp1 == lp0
                        &&& (rp0 is Some ==> rp1->0 == rp0->0)
                    }
                },
            }
        },
        Mode::Dual => {
            let m0 = d0.left_model()->0;
            let m1 = advance_model(m0, left_view, w);
            let due = plot_due(m0, left_view.len() as int, w);
            &&& d1.left_model() == Some(m1)
            &&& if due && !skip {
                lp1 == rendered_plot(m1, g, ph, w, lp0.len() as int)
            } else {
                lp1 == lp0
            }
            &&& match right_view {
                None => {
                    &&& d1.right_model() == d0.right_model()
                    &&& (rp0 is Some ==> rp1->0 == rp0->0)
                },
                Some(rsv) => {
                    let r0 = d0.right_model()->0;
                    let r1 = advance_model(r0, rsv, w);
                    let due_r = plot_due(r0, rsv.len() as int, w);
                    &&& d1.right_model() == Some(r1)
                    &&& (rp0 is Some ==> rp1->0 == if due_r
                        && !skip {
                        rendered_plot(r1, g, ph, w, rp0->0.len() as int)
                    } else {
                        rp0->0
                    })
                },
            }
        },
        Mode::StereoToMono => {
            let t0 = d0.temps_spec()->0;
            let m0 = d0.left_model()->0;
            let m1 = advance_model(m0, left_view, w);
            let due_l = plot_due(m0, left_view.len() as int, w);
            let tl1 = if skip {
                t0.0
            } else if due_l {
                rendered_plot(m1, g, ph, w, lp0.len() as int)
            } else {
                resized_plot(t0.0, lp0.len() as int)
            };
            &&& d1.left_model() == Some(m1)
            &&& match right_view {
                None => {
                    &&& d1.right_model() == d0.right_model()
                    &&& d1.temps_spec() == Some((tl1, t0.1))
                    &&& lp1 == lp0
                    &&& (rp0 is Some ==> rp1->0 == rp0->0)
                },
                Some(rsv) => {
                    let r0 = d0.right_model()->0;
                    let r1 = advance_model(r0, rsv, w);
                    let due_r = plot_due(r0, rsv.len() as int, w);
                    let tr1 = if skip {
                        t0.1
                    } else if due_r {
                        rendered_plot(r1, g, ph, w, lp0.len() as int)
                    } else {
                        resized_plot(t0.1, lp0.len() as int)
                    };
                    &&& d1.right_model() == Some(r1)
                    &&& d1.temps_spec() == Some((tl1, tr1))
                    &&& if skip {
                        &&& lp1 == lp0
                        &&& (rp0 is Some ==> rp1->0 == rp0->0)
                    } else {
                        &&& lp1 == averaged_plot(
                            tl1,
                            tr1,
                            lp0.len() as int,
                        )
                        &&& (rp0 is Some ==> rp1->0
                            == lp1)
                    }
                },
            }
        },
    }
}

impl DefaultDetector {
    /// The window length, in samples.
    pub closed spec fn window_spec(&self) -> int {
        self.params.window_spec()
    }

    /// The window length, in milliseconds.
    pub closed spec fn window_ms_spec(&self) -> int {
        self.params.window_ms_spec()
    }

    /// The sample rate, in Hz.
    pub closed spec fn sample_rate_spec(&self) -> int {
        self.params.sample_rate_spec()
    }

    /// The linear gain, in `GAIN_UNIT` units.
    pub closed spec fn gain_spec(&self) -> int {
        self.params.gain_spec()
    }

    /// The trigger phase.
    pub closed spec fn phase_spec(&self) -> Normal {
        self.params.phase_spec()
    }

    /// The detection mode.
    pub closed spec fn mode_spec(&self) -> Mode {
        self.params.mode_spec()
    }

    /// The left channel's state, if the mode uses it.
    pub closed spec fn left_model(&self) -> Option<ChannelModel> {
        match self.left_channel {
            Some(c) => Some(c.model()),
            None => None,
        }
    }

    /// The right channel's state, if the mode uses it.
    pub closed spec fn right_model(&self) -> Option<ChannelModel> {
        match self.right_channel {
            Some(c) => Some(c.model()),
            None => None,
        }
    }

    /// The stereo-to-mono scratch plots, if the mode uses them.
    pub closed spec fn temps_spec(&self) -> Option<(Seq<i64>, Seq<i64>)> {
        match self.temp_plots {
            Some((l, r)) => Some((l@, r@)),
            None => None,
        }
    }

    /// Consistency: the channels and scratch plots exist exactly as the mode
    /// demands, and are each consistent with the window.
    pub closed spec fn wf(&self) -> bool {
        &&& self.params.wf()
        &&& (self.left_channel is Some <==> self.params.mode_spec() != Mode::RightOnly)
        &&& (self.right_channel is Some <==> self.params.mode_spec() != Mode::MonoOrLeftOnly)
        &&& (self.temp_plots is Some <==> self.params.mode_spec() == Mode::StereoToMono)
        &&& (self.left_channel is Some ==> self.left_channel->0.wf(self.params.window_spec()))
        &&& (self.right_channel is Some ==> self.right_channel->0.wf(self.params.window_spec()))
        &&& (self.temp_plots is Some ==> {
            let t = self.temp_plots->0;
            &&& t.0@.len() <= MAX_PLOT_RESOLUTION
            &&& t.1@.len() <= MAX_PLOT_RESOLUTION
            &&& plot_values_bounded(t.0@)
            &&& plot_values_bounded(t.1@)
        })
    }

    /// (Re)creates the channels and scratch plots the current mode needs,
    /// discarding all history: fresh zeroed buffers with cursors at zero.
    fn allocate_buffers(&mut self)
        requires
            old(self).params.wf(),
        ensures
            final(self).wf(),
            final(self).params == old(self).params,
            fresh_buffers(*final(self)),
    {
        let w = self.params.window_samples();
        if self.params.mode() == Mode::RightOnly {
            self.left_channel = None;
        } else {
            self.left_channel = Some(Channel::new(w));
        }
        if self.params.mode() == Mode::MonoOrLeftOnly {
            self.right_channel = None;
        } else {
            self.right_channel = Some(Channel::new(w));
        }
        if self.params.mode() == Mode::StereoToMono {
            self.temp_plots = Some((Vec::new(), Vec::new()));
        } else {
            self.temp_plots = None;
        }
    }

    /// Creates a detector with the given configuration and fresh buffers.
    pub fn new(window_ms: u32, sample_rate: u32, gain: u32, phase: Normal, mode: Mode) -> (d:
        DefaultDetector)
        requires
            1000 <= window_ms * sample_rate,
            window_ms * sample_rate <= 1000 * MAX_WINDOW_SAMPLES,
            gain <= GAIN_MAX,
            phase.wf(),
        ensures
            d.wf(),
            d.window_ms_spec() == window_ms,
            d.sample_rate_spec() == sample_rate,
            d.window_spec() == window_samples_of(window_ms as int, sample_rate as int),
            d.gain_spec() == gain,
            d.phase_spec() == phase,
            d.mode_spec() == mode,
            fresh_buffers(d),
    {
        let mut d = DefaultDetector {
            params: Params::new(window_ms, sample_rate, gain, phase, mode),
            left_channel: None,
            right_channel: None,
            temp_plots: None,
        };
        d.allocate_buffers();
        d
    }

    /// Switches the detection mode, reallocating and resetting all buffers;
    /// an unchanged mode is a no-op.
    pub fn set_mode(&mut self, mode: Mode)
        requires
            old(self).wf(),
        ensures
            final(self).wf(),
            final(self).mode_spec() == mode,
            final(self).window_spec() == old(self).window_spec(),
            final(self).sample_rate_spec() == old(self).sample_rate_spec(),
            final(self).gain_spec() == old(self).gain_spec(),
            final(self).phase_spec() == old(self).phase_spec(),
            mode == old(self).mode_spec() ==> *final(self) == *old(self),
            mode != old(self).mode_spec() ==> fresh_buffers(*final(self)),
    {
        if mode != self.params.mode() {
            self.params.set_mode(mode);
            self.allocate_buffers();
        }
    }

    /// Adopts a new window size (in milliseconds), reallocating and resetting
    /// all buffers, since old history has the wrong sample spacing; an
    /// unchanged size is a no-op.
    pub fn set_window_size(&mut self, window_ms: u32)
        requires
            old(self).wf(),
            1000 <= window_ms * old(self).sample_rate_spec(),
            window_ms * old(self).sample_rate_spec() <= 1000 * MAX_WINDOW_SAMPLES,
        ensures
            final(self).wf(),
            final(self).mode_spec() == old(self).mode_spec(),
            final(self).sample_rate_spec() == old(self).sample_rate_spec(),
            final(self).gain_spec() == old(self).gain_spec(),
            final(self).phase_spec() == old(self).phase_spec(),
            window_ms == old(self).window_ms_spec() ==> *final(self) == *old(self),
            window_ms != old(self).window_ms_spec() ==> {
                &&& final(self).window_ms_spec() == window_ms
                &&& final(self).window_spec() == window_samples_of(
                    window_ms as int,
                    old(self).sample_rate_spec(),
                )
                &&& fresh_buffers(*final(self))
            },
    {
        if window_ms != self.params.window_ms() {
            self.params.update_window_size(window_ms);
            self.allocate_buffers();
        }
    }

    /// Adopts a new sample rate, reallocating and resetting all buffers; an
    /// unchanged rate is a no-op.
    pub fn set_sample_rate(&mut self, sample_rate: u32)
        requires
            old(self).wf(),
            1000 <= old(self).window_ms_spec() * sample_rate,
            old(self).window_ms_spec() * sample_rate <= 1000 * MAX_WINDOW_SAMPLES,
        ensures
            final(self).wf(),
            final(self).mode_spec() == old(self).mode_spec(),
            final(self).window_ms_spec() == old(self).window_ms_spec(),
            final(self).gain_spec() == old(self).gain_spec(),
            final(self).phase_spec() == old(self).phase_spec(),
            sample_rate == old(self).sample_rate_spec() ==> *final(self) == *old(self),
            sample_rate != old(self).sample_rate_spec() ==> {
                &&& final(self).sample_rate_spec() == sample_rate
                &&& final(self).window_spec() == window_samples_of(
                    old(self).window_ms_spec(),
                    sample_rate as int,
                )
                &&& fresh_buffers(*final(self))
            },
    {
        if sample_rate != self.params.sample_rate() {
            self.params.update_sample_rate(sample_rate);
            self.allocate_buffers();
        }
    }

    /// Adopts a new gain; it applies from the next rendered plot on.
    pub fn set_gain(&mut self, gain: u32)
        requires
            old(self).wf(),
            gain <= GAIN_MAX,
        ensures
            final(self).wf(),
            final(self).gain_spec() == gain,
            final(self).mode_spec() == old(self).mode_spec(),
            final(self).window_spec() == old(self).window_spec(),
            final(self).sample_rate_spec() == old(self).sample_rate_spec(),
            final(self).phase_spec() == old(self).phase_spec(),
            final(self).left_model() == old(self).left_model(),
            final(self).right_model() == old(self).right_model(),
            final(self).temps_spec() == old(self).temps_spec(),
    {
        self.params.set_gain(gain);
    }

    /// Adopts a new trigger phase; it applies from the next rendered plot on.
    pub fn set_phase(&mut self, phase: Normal)
        requires
            old(self).wf(),
            phase.wf(),
        ensures
            final(self).wf(),
            final(self).phase_spec() == phase,
            final(self).mode_spec() == old(self).mode_spec(),
            final(self).window_spec() == old(self).window_spec(),
            final(self).sample_rate_spec() == old(self).sample_rate_spec(),
            final(self).gain_spec() == old(self).gain_spec(),
            final(self).left_model() == old(self).left_model(),
            final(self).right_model() == old(self).right_model(),
            final(self).temps_spec() == old(self).temps_spec(),
    {
        self.params.set_phase(phase);
    }

    /// Feeds the streams' unread samples into the rolling history and, when a
    /// batch crosses a window boundary, resamples the latest complete window
    /// into the plot buffers (unless `skip_plotting` suppresses the rendering
    /// work while still keeping the history current).
    ///
    /// In the single-input modes the right plot, if present, receives a copy
    /// of the left. In dual mode each channel renders into its own plot. In
    /// stereo-to-mono each channel renders into a scratch plot and the
    /// point-by-point average lands in both plots.
    pub fn process(
        &mut self,
        left_stream: &RingChannel,
        right_stream: Option<&RingChannel>,
        left_plot: &mut Vec<i64>,
        right_plot: &mut Option<Vec<i64>>,
        skip_plotting: bool,
    )
        requires
            old(self).wf(),
            left_stream.wf(),
            right_stream is Some ==> right_stream->0.wf(),
            old(left_plot)@.len() <= MAX_PLOT_RESOLUTION,
            (*old(right_plot)) is Some ==> (*old(right_plot))->0@.len() == old(left_plot)@.len(),
        ensures
            final(self).wf(),
            final(self).mode_spec() == old(self).mode_spec(),
            final(self).window_spec() == old(self).window_spec(),
            final(self).window_ms_spec() == old(self).window_ms_spec(),
            final(self).sample_rate_spec() == old(self).sample_rate_spec(),
            final(self).gain_spec() == old(self).gain_spec(),
            final(self).phase_spec() == old(self).phase_spec(),
            final(left_plot)@.len() == old(left_plot)@.len(),
            (*final(right_plot)) is Some <==> (*old(right_plot)) is Some,
            (*final(right_plot)) is Some ==> (*final(right_plot))->0@.len() == (*old(right_plot))->0@.len(),
            frame_post(
                *old(self),
                *final(self),
                left_stream@,
                match right_stream {
                    Some(rs) => Some(rs@),
                    None => None,
                },
                old(left_plot)@,
                final(left_plot)@,
                match *old(right_plot) {
                    Some(v) => Some(v@),
                    None => None,
                },
                match *final(right_plot) {
                    Some(v) => Some(v@),
                    None => None,
                },
                skip_plotting,
            ),
    {
        let w = self.params.window_samples();
        let gain = self.params.gain();
        let phase = self.params.phase();
        let plot_len = left_plot.len();
        match self.params.mode() {
            Mode::MonoOrLeftOnly => {
                let (s1, s2) = left_stream.read_access();
                if let Some(channel) = &mut self.left_channel {
                    let due = channel.advance(s1, s2, w);
                    if due && !skip_plotting {
                        channel.render(left_plot, gain, &phase, w);
                        if let Some(rp) = right_plot {
                            copy_plot(rp, left_plot);
                        }
                    }
                }
            },
            Mode::RightOnly => {
                if let Some(rs) = right_stream {
                    let (s1, s2) = rs.read_access();
                    if let Some(channel) = &mut self.right_channel {
                        let due = channel.advance(s1, s2, w);
                        if due && !skip_plotting {
                            channel.render(left_plot, gain, &phase, w);
                            if let Some(rp) = right_plot {
                                copy_plot(rp, left_plot);
                            }
                        }
                    }
                }
            },
            Mode::Dual => {
                let (s1, s2) = left_stream.read_access();
                if let Some(channel) = &mut self.left_channel {
                    let due = channel.advance(s1, s2, w);
                    if due && !skip_plotting {
                        channel.render(left_plot, gain, &phase, w);
                    }
                }
                if let Some(rs) = right_stream {
                    let (r1, r2) = rs.read_access();
                    if let Some(channel) = &mut self.right_channel {
                        let due = channel.advance(r1, r2, w);
                        if due && !skip_plotting {
                            if let Some(rp) = right_plot {
                                channel.render(rp, gain, &phase, w);
                            }
                        }
                    }
                }
            },
            Mode::StereoToMono => {
                let (s1, s2) = left_stream.read_access();
                if let Some(channel) = &mut self.left_channel {
                    let due = channel.advance(s1, s2, w);
                    if !skip_plotting {
                        if let Some(temps) = &mut self.temp_plots {
                            resize_plot(&mut temps.0, plot_len);
                            if due {
                                channel.render(&mut temps.0, gain, &phase, w);
                                proof {
                                    lemma_rendered_plot_bounded(
                                        channel.model(),
                                        gain as int,
                                        phase.units_spec(),
                                        w as int,
                                        plot_len as int,
                                    );
                                }
                            }
                        }
                    }
                }
                let mut right_processed = false;
                if let Some(rs) = right_stream {
                    let (r1, r2) = rs.read_access();
                    if let Some(channel) = &mut self.right_channel {
                        let due = channel.advance(r1, r2, w);
                        if !skip_plotting {
                            if let Some(temps) = &mut self.temp_plots {
                                resize_plot(&mut temps.1, plot_len);
                                if due {
                                    channel.render(&mut temps.1, gain, &phase, w);
                                    proof {
                                        lemma_rendered_plot_bounded(
                                            channel.model(),
                                            gain as int,
                                            phase.units_spec(),
                                            w as int,
                                            plot_len as int,
                                        );
                                    }
                                }
                            }
                        }
                    }
                    right_processed = true;
                }
                if right_processed && !skip_plotting {
                    if let Some(temps) = &self.temp_plots {
                        let mut i: usize = 0;
                        while i < plot_len
                            invariant
                                i <= plot_len,
                                left_plot@.len() == plot_len,
                                temps.0@.len() == plot_len,
                                temps.1@.len() == plot_len,
                                plot_values_bounded(temps.0@),
                                plot_values_bounded(temps.1@),
                                forall|k: int|
                                    0 <= k < i ==> left_plot@[k] == averaged_plot(
                                        temps.0@,
                                        temps.1@,
                                        plot_len as int,
                                    )[k],
                            decreases plot_len - i,
                        {
                            let tl = *vstd::slice::slice_index_get(temps.0.as_slice(), i);
                            let tr = *vstd::slice::slice_index_get(temps.1.as_slice(), i);
                            left_plot.set(i, half_i64(tl + tr));
                            i = i + 1;
                        }
                        proof {
                            assert(left_plot@ =~= averaged_plot(
                                temps.0@,
                                temps.1@,
                                plot_len as int,
                            ));
                        }
                        if let Some(rp) = right_plot {
                            copy_plot(rp, left_plot);
                        }
                    }
                }
            },
        }
    }

    /// Zeroes all history and resets the cursors, keeping the configuration.
    pub fn clear(&mut self)
        requires
            old(self).wf(),
        ensures
            final(self).wf(),
            final(self).mode_spec() == old(self).mode_spec(),
            final(self).window_spec() == old(self).window_spec(),
            final(self).sample_rate_spec() == old(self).sample_rate_spec(),
            final(self).gain_spec() == old(self).gain_spec(),
            final(self).phase_spec() == old(self).phase_spec(),
            final(self).left_model() is Some <==> old(self).left_model() is Some,
            final(self).right_model() is Some <==> old(self).right_model() is Some,
            final(self).left_model() is Some ==> channel_is_fresh(final(self).left_model()->0),
            final(self).right_model() is Some ==> channel_is_fresh(final(self).right_model()->0),
            final(self).temps_spec() == old(self).temps_spec(),
    {
        let w = self.params.window_samples();
        if let Some(channel) = &mut self.left_channel {
            channel.clear(w);
        }
        if let Some(channel) = &mut self.right_channel {
            channel.clear(w);
        }
    }
}

/// A channel holding only zeroes, with both cursors at zero.
pub open spec fn channel_is_fresh(m: ChannelModel) -> bool {
    &&& m.buffer_i == 0
    &&& m.window_phase == 0
    &&& forall|p: int| 0 <= p < m.data.len() ==> m.data[p] == 0
}

/// Freshly allocated buffers: the channels the mode demands exist, zeroed
/// with cursors at zero, and the scratch plots (if any) are empty.
pub open spec fn fresh_buffers(d: DefaultDetector) -> bool {
    &&& (d.left_model() is Some ==> channel_is_fresh(d.left_model()->0))
    &&& (d.right_model() is Some ==> channel_is_fresh(d.right_model()->0))
    &&& (d.temps_spec() is Some ==> d.temps_spec()->0 == (Seq::<i64>::empty(), Seq::<i64>::empty()))
}

/// Copies one plot into another of the same length.
fn copy_plot(dst: &mut Vec<i64>, src: &Vec<i64>)
    requires
        old(dst)@.len() == src@.len(),
    ensures
        final(dst)@ == src@,
{
    let mut i: usize = 0;
    while i < src.len()
        invariant
            i <= src@.len(),
            dst@.len() == src@.len(),
            forall|k: int| 0 <= k < i ==> dst@[k] == src@[k],
        decreases src@.len() - i,
    {
        let x = *vstd::slice::slice_index_get(src.as_slice(), i);
        dst.set(i, x);
        i = i + 1;
    }
    proof {
        assert(dst@ =~= src@);
    }
}

} // verus!
