//! Realtime audio-to-GUI telemetry: a fixed-capacity sample ring channel and
//! the signal detectors (peak, block-cached RMS, phase-locked oscilloscope,
//! scrolling min/max waveform) that consume it.
//!
//! Samples are signed 16-bit fixed-point amplitudes; one full-scale amplitude
//! is `i16::MAX`. Decibel conversion of the linear outputs is left to the
//! display layer, which owns all floating-point work.

use vstd::prelude::*;

pub mod block_queue;
pub mod db_meter;
pub mod oscilloscope;
pub mod plot_ring;
pub mod ring_channel;
pub mod ring_history;
pub mod text_marks;
pub mod tick_marks;
pub mod v_slider;
pub mod wave_view;

verus! {

/// Largest absolute value of a sample, as a convenience for callers
/// reasoning about headroom.
pub const SAMPLE_ABS_MAX: i32 = 32768;

/// Absolute value of a sample, widened so that `i16::MIN` is representable.
pub fn sample_abs(s: i16) -> (r: i32)
    ensures
        r == abs_val(s as int),
        0 <= r <= SAMPLE_ABS_MAX,
{
    if s < 0 {
        -(s as i32)
    } else {
        s as i32
    }
}

/// Mathematical absolute value.
pub open spec fn abs_val(x: int) -> int {
    if x < 0 {
        -x
    } else {
        x
    }
}

/// The number of [`Normal`] units that make up 1.0.
pub const NORMAL_UNIT: u32 = 0x10000;

/// A value in the closed range 0..=1, held in fixed point as a count of
/// `1 / NORMAL_UNIT` units.
#[derive(Clone, Copy, PartialEq, Eq, Structural, Debug)]
pub struct Normal {
    units: u32,
}

impl Normal {
    /// The held count of units, at most [`NORMAL_UNIT`].
    pub closed spec fn units_spec(&self) -> int {
        self.units as int
    }

    /// The range invariant: the value is at most 1.0.
    pub open spec fn wf(&self) -> bool {
        self.units_spec() <= NORMAL_UNIT
    }

    /// Creates a normalized value of `units / NORMAL_UNIT`, clamping anything
    /// above 1.0 down to 1.0.
    pub fn new(units: u32) -> (n: Normal)
        ensures
            n.wf(),
            n.units_spec() == if units <= NORMAL_UNIT {
                units as int
            } else {
                NORMAL_UNIT as int
            },
    {
        if units <= NORMAL_UNIT {
            Normal { units }
        } else {
            Normal { units: NORMAL_UNIT }
        }
    }

    /// The held count of units.
    pub fn value(&self) -> (u: u32)
        ensures
            u == self.units_spec(),
    {
        self.units
    }
}

} // verus!
