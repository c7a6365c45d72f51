use audio_scope::oscilloscope::default_detector::Params;
use audio_scope::oscilloscope::default_detector::Mode;
use audio_scope::oscilloscope::default_detector::GAIN_UNIT;
use audio_scope::text_marks::Align;
use audio_scope::tick_marks::Placement;
use audio_scope::v_slider::ModRangePlacement;
use audio_scope::v_slider::ValueFillMode;
use audio_scope::wave_view::PlotPoint;
use audio_scope::Normal;

#[test]
fn tick_placement_default_sits_two_pixels_outside() {
    assert_eq!(Placement::default(), Placement::BothSides { offset: 2, inside: false });
}

#[test]
fn style_enums_compare_by_structure() {
    assert_eq!(Align::Center, Align::Center);
    assert_ne!(Align::Start, Align::End);
    assert_eq!(ValueFillMode::FromBottom { padding: 3 }, ValueFillMode::FromBottom { padding: 3 });
    assert_ne!(
        ValueFillMode::FromBottom { padding: 3 },
        ValueFillMode::FromTop { padding: 3 }
    );
    assert_ne!(ModRangePlacement::Left, ModRangePlacement::Right);
}

#[test]
fn plot_point_default_is_the_zero_envelope() {
    let p = PlotPoint::default();
    assert_eq!(p.max, 0);
    assert_eq!(p.min, 0);
}

#[test]
fn params_derive_the_window_in_samples() {
    let p = Params::new(10, 48000, GAIN_UNIT, Normal::new(0), Mode::Dual);
    assert_eq!(p.window_samples(), 480);
    assert_eq!(p.window_ms(), 10);
    assert_eq!(p.sample_rate(), 48000);
    assert_eq!(p.mode(), Mode::Dual);
}

#[test]
fn params_updates_rederive_the_window() {
    let mut p = Params::new(10, 48000, GAIN_UNIT, Normal::new(0), Mode::MonoOrLeftOnly);
    p.update_window_size(25);
    assert_eq!(p.window_samples(), 1200);
    p.update_sample_rate(44100);
    // 25 ms of 44.1 kHz rounds down to 1102 samples.
    assert_eq!(p.window_samples(), 1102);
}
