use audio_scope::oscilloscope;
use audio_scope::oscilloscope::default_detector::DefaultDetector;
use audio_scope::oscilloscope::default_detector::Mode;
use audio_scope::oscilloscope::default_detector::GAIN_UNIT;
use audio_scope::ring_channel;
use audio_scope::wave_view;
use audio_scope::wave_view::peak_detector::min_max;
use audio_scope::wave_view::peak_detector::Mode as WaveMode;
use audio_scope::wave_view::peak_detector::PeakDetector as WavePeakDetector;
use audio_scope::wave_view::Plot;
use audio_scope::wave_view::PlotPoint;
use audio_scope::Normal;

/// A sine table with an exact integer period of 120 samples.
fn sine_samples(n: usize) -> Vec<i16> {
    (0..n)
        .map(|i| {
            let t = (i % 120) as f64 / 120.0;
            (30000.0 * (2.0 * std::f64::consts::PI * t).sin()).round() as i16
        })
        .collect()
}

#[test]
fn normal_clamps_above_one() {
    assert_eq!(Normal::new(123).value(), 123);
    assert_eq!(Normal::new(0x10000).value(), 0x10000);
    assert_eq!(Normal::new(0x20000).value(), 0x10000);
}

/// 10 ms at 48 kHz is a 480-sample window; with 48 plot points, each point
/// sits exactly 10 samples after the last, so at phase 0 and unity gain the
/// plot is exactly the history at indices 0, 10, 20, ... scaled by 2^32.
#[test]
fn oscilloscope_plot_matches_the_sine_period() {
    let mut det = DefaultDetector::new(10, 48000, GAIN_UNIT, Normal::new(0), Mode::MonoOrLeftOnly);
    let mut state = oscilloscope::State::new(48, false);
    let mut anim = oscilloscope::Animator::new(det);
    let mut chan = ring_channel::new(1024);
    let samples = sine_samples(480);
    chan.write(&samples);
    anim.update(&mut state, Some(&chan), None, false);
    assert!(state.left_active());
    let plot = state.left_plot();
    assert_eq!(plot.len(), 48);
    for i in 0..48 {
        let expected = (samples[i * 10] as i64) << 32;
        assert_eq!(plot[i], expected);
    }
    // The input period of 120 samples shows as a plot period of 12 points.
    for i in 0..36 {
        assert_eq!(plot[i], plot[i + 12]);
    }
}

#[test]
fn oscilloscope_gain_scales_the_plot_exactly() {
    let mut chan = ring_channel::new(1024);
    let samples = sine_samples(480);
    chan.write(&samples);
    let mut none_plot: Option<Vec<i64>> = None;

    let mut unity = DefaultDetector::new(10, 48000, GAIN_UNIT, Normal::new(0), Mode::MonoOrLeftOnly);
    let mut p1: Vec<i64> = vec![0; 48];
    unity.process(&chan, None, &mut p1, &mut none_plot, false);

    let mut tripled = DefaultDetector::new(
        10,
        48000,
        3 * GAIN_UNIT,
        Normal::new(0),
        Mode::MonoOrLeftOnly,
    );
    let mut p3: Vec<i64> = vec![0; 48];
    tripled.process(&chan, None, &mut p3, &mut none_plot, false);
    for i in 0..48 {
        assert_eq!(p3[i], 3 * p1[i], "gain must scale the plot exactly");
    }
}

#[test]
fn oscilloscope_skip_plotting_leaves_the_plot_alone() {
    let mut det = DefaultDetector::new(10, 48000, GAIN_UNIT, Normal::new(0), Mode::MonoOrLeftOnly);
    let mut chan = ring_channel::new(1024);
    chan.write(&sine_samples(480));
    let mut plot: Vec<i64> = vec![77; 48];
    let mut none_plot: Option<Vec<i64>> = None;
    det.process(&chan, None, &mut plot, &mut none_plot, true);
    assert!(plot.iter().all(|v| *v == 77));
}

#[test]
fn oscilloscope_incomplete_window_plots_nothing_yet() {
    let mut det = DefaultDetector::new(10, 48000, GAIN_UNIT, Normal::new(0), Mode::MonoOrLeftOnly);
    let mut chan = ring_channel::new(1024);
    chan.write(&sine_samples(200));
    let mut plot: Vec<i64> = vec![55; 48];
    let mut none_plot: Option<Vec<i64>> = None;
    det.process(&chan, None, &mut plot, &mut none_plot, false);
    assert!(plot.iter().all(|v| *v == 55), "no full window has elapsed");
}

#[test]
fn oscilloscope_stereo_to_mono_averages_the_channels() {
    let mut det = DefaultDetector::new(10, 48000, GAIN_UNIT, Normal::new(0), Mode::StereoToMono);
    let mut left = ring_channel::new(1024);
    let mut right = ring_channel::new(1024);
    left.write(&vec![1000i16; 480]);
    right.write(&vec![3000i16; 480]);
    let mut plot: Vec<i64> = vec![0; 16];
    let mut none_plot: Option<Vec<i64>> = None;
    det.process(&left, Some(&right), &mut plot, &mut none_plot, false);
    let expected = ((1000i64 << 32) + (3000i64 << 32)) / 2;
    for v in plot.iter() {
        assert_eq!(*v, expected);
    }
}

#[test]
fn oscilloscope_dual_mode_fills_both_plots() {
    let mut det = DefaultDetector::new(10, 48000, GAIN_UNIT, Normal::new(0), Mode::Dual);
    let mut state = oscilloscope::State::new(16, true);
    let mut anim = oscilloscope::Animator::new(det);
    let mut left = ring_channel::new(1024);
    let mut right = ring_channel::new(1024);
    left.write(&vec![500i16; 480]);
    right.write(&vec![-800i16; 480]);
    anim.update(&mut state, Some(&left), Some(&right), false);
    assert!(state.left_active() && state.right_active());
    assert_eq!(state.left_plot()[0], 500i64 << 32);
    let right_plot = state.right_plot().as_ref().expect("dual state has a right plot");
    assert_eq!(right_plot[0], (-800i64) << 32);
}

#[test]
fn min_max_of_empty_batch_is_the_neutral_envelope() {
    let p = min_max(&[]);
    assert_eq!(p.max, i16::MIN);
    assert_eq!(p.min, i16::MAX);
}

#[test]
fn min_max_finds_the_envelope() {
    let p = min_max(&[3, -9, 7, 0]);
    assert_eq!(p.max, 7);
    assert_eq!(p.min, -9);
}

#[test]
fn plot_scrolls_oldest_out() {
    let mut plot = Plot::new(4);
    plot.write_to_next(&[
        PlotPoint { max: 1, min: -1 },
        PlotPoint { max: 2, min: -2 },
    ]);
    let (s1, s2) = plot.get_plot();
    let all: Vec<(i16, i16)> = s1.iter().chain(s2.iter()).copied().collect();
    assert_eq!(all, vec![(0, 0), (0, 0), (1, -1), (2, -2)]);
}

/// 10 ms at 48 kHz with 48 plot points: every envelope point spans exactly 10
/// ramp samples, so its max is its min plus 9 and successive maxes ascend.
#[test]
fn waveform_ramp_envelope_is_exact() {
    let mut det = WavePeakDetector::new(GAIN_UNIT, WaveMode::MonoOrLeftOnly, 48000, 10);
    let mut state = wave_view::State::new(48, false);
    let mut anim = wave_view::Animator::new(det);
    let mut chan = ring_channel::new(1024);
    let ramp: Vec<i16> = (0..480).map(|i| i as i16).collect();
    chan.write(&ramp);
    anim.update(&mut state, Some(&chan), None, false);
    let (s1, s2) = state.left_plot().get_plot();
    let all: Vec<(i16, i16)> = s1.iter().chain(s2.iter()).copied().collect();
    assert_eq!(all.len(), 48);
    for (k, p) in all.iter().enumerate() {
        assert_eq!(p.1, (10 * k) as i16, "min of point {k}");
        assert_eq!(p.0, (10 * k + 9) as i16, "max of point {k}");
    }
    for k in 0..47 {
        assert!(all[k].0 <= all[k + 1].0, "maxes must not decrease");
    }
}

/// A point whose span straddles two batches still aggregates both sides.
#[test]
fn waveform_point_spanning_two_batches_is_exact() {
    let mut det = WavePeakDetector::new(GAIN_UNIT, WaveMode::MonoOrLeftOnly, 48000, 10);
    let mut plot = Plot::new(48);
    let mut none_plot: Option<Plot> = None;
    let mut chan = ring_channel::new(1024);
    let ramp: Vec<i16> = (0..15).map(|i| i as i16).collect();
    chan.write(&ramp);
    det.process(&chan, None, &mut plot, &mut none_plot, false);
    chan.clear();
    let ramp2: Vec<i16> = (15..30).map(|i| i as i16).collect();
    chan.write(&ramp2);
    det.process(&chan, None, &mut plot, &mut none_plot, false);
    let (s1, s2) = plot.get_plot();
    let all: Vec<(i16, i16)> = s1.iter().chain(s2.iter()).copied().collect();
    // Three points are due after 30 samples; the second one spans samples
    // 10..19, five from each batch.
    assert_eq!(all[45], (9, 0));
    assert_eq!(all[46], (19, 10));
    assert_eq!(all[47], (29, 20));
}

#[test]
fn waveform_other_modes_leave_the_plot_alone() {
    let mut det = WavePeakDetector::new(GAIN_UNIT, WaveMode::Dual, 48000, 10);
    let mut plot = Plot::new(8);
    let mut none_plot: Option<Plot> = None;
    let mut chan = ring_channel::new(1024);
    chan.write(&vec![123i16; 480]);
    det.process(&chan, None, &mut plot, &mut none_plot, false);
    let (s1, s2) = plot.get_plot();
    assert!(s1.iter().chain(s2.iter()).all(|p| *p == (0, 0)));
}

#[test]
fn waveform_sample_rate_change_resets_the_span() {
    let mut det = WavePeakDetector::new(GAIN_UNIT, WaveMode::MonoOrLeftOnly, 48000, 10);
    let mut plot = Plot::new(48);
    let mut none_plot: Option<Plot> = None;
    let mut chan = ring_channel::new(1024);
    chan.write(&vec![5i16; 7]);
    det.process(&chan, None, &mut plot, &mut none_plot, false);
    det.set_sample_rate(96000);
    // The partial span was discarded with the old pacing.
    chan.clear();
    chan.write(&vec![9i16; 20]);
    det.process(&chan, None, &mut plot, &mut none_plot, false);
    let (s1, s2) = plot.get_plot();
    let all: Vec<(i16, i16)> = s1.iter().chain(s2.iter()).copied().collect();
    // 10 ms at 96 kHz is 960 samples, 20 per point: exactly one point is due
    // and it holds only the new samples.
    assert_eq!(all[47], (9, 9));
    assert_eq!(all[46], (0, 0));
}

/// A trigger phase of exactly 1.0 wraps back to 0.0: both place the window
/// boundary at the same sample.
#[test]
fn oscilloscope_phase_one_wraps_to_phase_zero() {
    let samples = sine_samples(480);
    let mut none_plot: Option<Vec<i64>> = None;

    let mut at_zero = DefaultDetector::new(10, 48000, GAIN_UNIT, Normal::new(0), Mode::MonoOrLeftOnly);
    let mut chan0 = ring_channel::new(1024);
    chan0.write(&samples);
    let mut p0: Vec<i64> = vec![0; 48];
    at_zero.process(&chan0, None, &mut p0, &mut none_plot, false);

    let mut at_one = DefaultDetector::new(
        10,
        48000,
        GAIN_UNIT,
        Normal::new(0x10000),
        Mode::MonoOrLeftOnly,
    );
    let mut chan1 = ring_channel::new(1024);
    chan1.write(&samples);
    let mut p1: Vec<i64> = vec![0; 48];
    at_one.process(&chan1, None, &mut p1, &mut none_plot, false);

    assert_eq!(p0, p1);
}

/// A trigger phase of 0.5 shifts the read position half a window back: the
/// first half of the plot reads the zero-initialized history before the batch
/// and the second half reads the batch from its start.
#[test]
fn oscilloscope_phase_half_shifts_the_window() {
    let samples = sine_samples(480);
    let mut det = DefaultDetector::new(
        10,
        48000,
        GAIN_UNIT,
        Normal::new(0x8000),
        Mode::MonoOrLeftOnly,
    );
    let mut chan = ring_channel::new(1024);
    chan.write(&samples);
    let mut plot: Vec<i64> = vec![0; 48];
    let mut none_plot: Option<Vec<i64>> = None;
    det.process(&chan, None, &mut plot, &mut none_plot, false);
    for i in 0..24 {
        assert_eq!(plot[i], 0, "point {i} reads history older than the batch");
    }
    for k in 0..24 {
        assert_eq!(plot[24 + k], (samples[10 * k] as i64) << 32);
    }
}

/// The fractional window progress carries across calls: a plot falls due on
/// the call that crosses the boundary, and a periodic signal yields the same
/// plot window after window.
#[test]
fn oscilloscope_window_boundary_carries_across_calls() {
    let mut det = DefaultDetector::new(10, 48000, GAIN_UNIT, Normal::new(0), Mode::MonoOrLeftOnly);
    let samples = sine_samples(960);
    let mut chan = ring_channel::new(1024);
    let mut plot: Vec<i64> = vec![0; 48];
    let mut none_plot: Option<Vec<i64>> = None;

    // 479 samples: just short of one window, nothing plotted.
    chan.write(&samples[..479]);
    det.process(&chan, None, &mut plot, &mut none_plot, false);
    assert!(plot.iter().all(|v| *v == 0));

    // One more sample crosses the boundary.
    chan.clear();
    chan.write(&samples[479..480]);
    det.process(&chan, None, &mut plot, &mut none_plot, false);
    let first_window = plot.clone();
    assert!(first_window.iter().any(|v| *v != 0));

    // The second full window of a 120-periodic signal plots identically.
    chan.clear();
    chan.write(&samples[480..960]);
    det.process(&chan, None, &mut plot, &mut none_plot, false);
    assert_eq!(plot, first_window);
}

#[test]
fn oscilloscope_animator_without_left_stream_is_idle() {
    let det = DefaultDetector::new(10, 48000, GAIN_UNIT, Normal::new(0), Mode::MonoOrLeftOnly);
    let mut state = oscilloscope::State::new(8, false);
    let mut anim = oscilloscope::Animator::new(det);
    anim.update(&mut state, None, None, false);
    assert!(!state.left_active());
    assert!(!state.right_active());
    assert!(state.left_plot().iter().all(|v| *v == 0));
}
