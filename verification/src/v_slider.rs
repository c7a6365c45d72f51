//! Configuration for a vertical slider widget.

use vstd::prelude::*;

verus! {

/// Where to start the value fill from.
#[derive(Debug, Copy, Clone, PartialEq, Eq, Structural)]
pub enum ValueFillMode {
    /// Start from the bottom.
    FromBottom {
        /// The spacing from the end of the value fill to the bottom of
        /// the widget in pixels.
        padding: u16,
    },
    /// Start from the top.
    FromTop {
        /// The spacing from the end of the value fill to the top of
        /// the widget in pixels.
        padding: u16,
    },
    /// Start from the center.
    FromCenter,
}

/// The placement of a modulation range indicator in a vertical slider.
#[derive(Debug, Copy, Clone, PartialEq, Eq, Structural)]
pub enum ModRangePlacement {
    /// In the center of the widget.
    Center,
    /// To the left of the widget.
    Left,
    /// To the right of the widget.
    Right,
}

} // verus!
