use audio_scope::db_meter::peak::calc_peak;
use audio_scope::db_meter::peak::PeakDetector;
use audio_scope::db_meter::peak_rms::isqrt64;
use audio_scope::db_meter::peak_rms::PeakRmsDetector;
use audio_scope::db_meter::DetectorOutput;
use audio_scope::ring_channel;
use audio_scope::sample_abs;

#[test]
fn empty_output_carries_nothing() {
    let out = DetectorOutput::empty();
    assert_eq!(out.left_peak, None);
    assert_eq!(out.left_bar, None);
    assert_eq!(out.right_peak, None);
    assert_eq!(out.right_bar, None);
}

#[test]
fn sample_abs_covers_the_extremes() {
    assert_eq!(sample_abs(0), 0);
    assert_eq!(sample_abs(-1), 1);
    assert_eq!(sample_abs(i16::MAX), 32767);
    assert_eq!(sample_abs(i16::MIN), 32768);
}

#[test]
fn peak_of_single_sample_is_its_magnitude() {
    // The display layer maps this linear peak to 20*log10(|a| / full scale).
    assert_eq!(calc_peak(&[-12345], &[]), 12345);
    assert_eq!(calc_peak(&[], &[31]), 31);
}

#[test]
fn peak_spans_both_segments() {
    assert_eq!(calc_peak(&[3, -7, 2], &[5, -6]), 7);
}

#[test]
fn peak_of_silence_is_the_zero_sentinel() {
    let mut c = ring_channel::new(16);
    c.write(&[0, 0, 0, 0]);
    let mut d = PeakDetector::new();
    let out = d.process(&c, None);
    assert_eq!(out.left_peak, Some(0));
    assert_eq!(out.left_bar, Some(0));
    assert_eq!(out.right_peak, None);
}

#[test]
fn peak_of_empty_batch_is_none() {
    let c = ring_channel::new(16);
    let mut d = PeakDetector::new();
    let out = d.process(&c, None);
    assert_eq!(out.left_peak, None);
    assert_eq!(out.left_bar, None);
}

#[test]
fn peak_reports_both_channels() {
    let mut left = ring_channel::new(16);
    let mut right = ring_channel::new(16);
    left.write(&[100, -300, 200]);
    right.write(&[-50, 40]);
    let mut d = PeakDetector::new();
    let out = d.process(&left, Some(&right));
    assert_eq!(out.left_peak, Some(300));
    assert_eq!(out.right_peak, Some(50));
}

#[test]
fn isqrt_rounds_down_exactly() {
    assert_eq!(isqrt64(0), 0);
    assert_eq!(isqrt64(1), 1);
    assert_eq!(isqrt64(3), 1);
    assert_eq!(isqrt64(4), 2);
    assert_eq!(isqrt64(99), 9);
    assert_eq!(isqrt64(1 << 30), 1 << 15);
    assert_eq!(isqrt64(u64::MAX), (1 << 32) - 1);
}

#[test]
fn rms_of_constant_full_window_is_the_amplitude() {
    // block size 4, 1 kHz: the window is 0.3 s = 300 samples, 75 blocks.
    let mut d = PeakRmsDetector::new(4);
    d.update_sample_rate(1000);
    let mut c = ring_channel::new(512);
    let samples = vec![100i16; 300];
    c.write(&samples);
    let out = d.process(&c, None);
    // The display layer maps this linear RMS to 20*log10(100 / full scale).
    assert_eq!(out.left_bar, Some(100));
    assert_eq!(out.left_peak, Some(100));
}

#[test]
fn rms_below_one_window_is_none() {
    let mut d = PeakRmsDetector::new(4);
    d.update_sample_rate(1000);
    let mut c = ring_channel::new(512);
    c.write(&vec![100i16; 299]);
    let out = d.process(&c, None);
    assert_eq!(out.left_bar, None);
    assert_eq!(out.left_peak, Some(100));
}

#[test]
fn rms_before_any_sample_rate_is_none() {
    let mut d = PeakRmsDetector::new(256);
    let mut c = ring_channel::new(512);
    c.write(&[5, 5, 5]);
    let out = d.process(&c, None);
    assert_eq!(out.left_bar, None);
    assert_eq!(out.left_peak, Some(5));
}

#[test]
fn sample_rate_change_resets_rms_to_none() {
    let mut d = PeakRmsDetector::new(4);
    d.update_sample_rate(1000);
    let mut c = ring_channel::new(512);
    c.write(&vec![100i16; 300]);
    let out = d.process(&c, None);
    assert_eq!(out.left_bar, Some(100));
    // A new rate invalidates all cached history at once.
    d.update_sample_rate(2000);
    c.clear();
    c.write(&vec![100i16; 300]);
    let out = d.process(&c, None);
    assert_eq!(out.left_bar, None, "stale cache must not survive a rate change");
}

#[test]
fn clear_resets_the_accumulated_window() {
    let mut d = PeakRmsDetector::new(4);
    d.update_sample_rate(1000);
    let mut c = ring_channel::new(512);
    c.write(&vec![100i16; 300]);
    let _ = d.process(&c, None);
    d.clear();
    c.clear();
    c.write(&vec![100i16; 299]);
    let out = d.process(&c, None);
    assert_eq!(out.left_bar, None);
}

#[test]
fn rms_mixes_partial_blocks_across_calls() {
    let mut d = PeakRmsDetector::new(4);
    d.update_sample_rate(1000);
    let mut c = ring_channel::new(512);
    // 150 samples now, 150 later: the window completes on the second call.
    c.write(&vec![100i16; 150]);
    let out = d.process(&c, None);
    assert_eq!(out.left_bar, None);
    c.clear();
    c.write(&vec![100i16; 150]);
    let out = d.process(&c, None);
    assert_eq!(out.left_bar, Some(100));
}

#[test]
fn rms_of_stereo_streams_is_per_channel() {
    let mut d = PeakRmsDetector::new(4);
    d.update_sample_rate(1000);
    let mut left = ring_channel::new(512);
    let mut right = ring_channel::new(512);
    left.write(&vec![100i16; 300]);
    right.write(&vec![50i16; 300]);
    let out = d.process(&left, Some(&right));
    assert_eq!(out.left_bar, Some(100));
    assert_eq!(out.right_bar, Some(50));
}

#[test]
fn default_detector_uses_the_conventional_block_size() {
    let mut d = PeakRmsDetector::default();
    // 48 kHz: 0.3 s is 14400 samples = 56 blocks of 256 plus a remainder,
    // so the window is 56 * 256 = 14336 samples.
    d.update_sample_rate(48000);
    let mut c = ring_channel::new(0x8000);
    c.write(&vec![1000i16; 14336]);
    let out = d.process(&c, None);
    assert_eq!(out.left_bar, Some(1000));
}

#[test]
fn window_target_rounds_to_the_nearest_sample() {
    // 0.3 s of 852 Hz is 255.6 samples: rounding gives 256, one whole block,
    // so RMS is emitted after 256 samples (flooring the target would leave no
    // whole block and silence the meter at this rate).
    let mut d = PeakRmsDetector::new(256);
    d.update_sample_rate(852);
    let mut c = ring_channel::new(512);
    c.write(&vec![70i16; 256]);
    let out = d.process(&c, None);
    assert_eq!(out.left_bar, Some(70));
}

#[test]
fn window_rounding_crosses_a_block_boundary() {
    // 0.3 s of 1705 Hz is 511.5 samples: rounding gives 512, two whole
    // blocks of 256 (a floored target of 511 would keep only one).
    let mut d = PeakRmsDetector::new(256);
    d.update_sample_rate(1705);
    let mut c = ring_channel::new(1024);
    c.write(&vec![70i16; 511]);
    let out = d.process(&c, None);
    assert_eq!(out.left_bar, None, "the window is two blocks, not one");
    c.clear();
    c.write(&vec![70i16; 1]);
    let out = d.process(&c, None);
    assert_eq!(out.left_bar, Some(70));
}
