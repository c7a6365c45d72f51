//! Level-meter detectors: a stateless peak reduction and a block-cached RMS
//! estimator, both reading the unread samples of a [`crate::ring_channel`]
//! channel without consuming them.
//!
//! Outputs are linear fixed-point amplitudes; `None` means "no new data this
//! frame". The display layer converts linear amplitude to decibels, which is
//! floating-point work the core does not do. A value of `0` is the silence
//! sentinel (it maps to negative infinity dB, which the display clamps).

use vstd::prelude::*;

pub mod peak;
pub mod peak_rms;

verus! {

/// Per-frame output of a level-meter detector.
///
/// `peak` fields carry the largest absolute sample amplitude of the frame's
/// batch; `bar` fields carry what the meter's bar should show (the peak for
/// the plain peak detector, the RMS amplitude for the RMS detector). `None`
/// signals "no new data", as distinct from silence, which is `Some(0)`.
#[derive(Clone, Copy, PartialEq, Eq, Structural, Debug)]
pub struct DetectorOutput {
    /// Peak amplitude of the left (or mono) channel.
    pub left_peak: Option<i32>,
    /// Bar amplitude of the left (or mono) channel.
    pub left_bar: Option<i32>,
    /// Peak amplitude of the right channel.
    pub right_peak: Option<i32>,
    /// Bar amplitude of the right channel.
    pub right_bar: Option<i32>,
}

impl DetectorOutput {
    /// An output carrying no data at all.
    pub fn empty() -> (out: DetectorOutput)
        ensures
            out.left_peak is None,
            out.left_bar is None,
            out.right_peak is None,
            out.right_bar is None,
    {
        DetectorOutput { left_peak: None, left_bar: None, right_peak: None, right_bar: None }
    }
}

} // verus!
