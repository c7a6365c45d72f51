//! Configuration for groups of tick marks along a widget.

use vstd::prelude::*;

verus! {

/// The placement of tick marks relative to the widget.
#[derive(Debug, Copy, Clone, PartialEq, Eq, Structural)]
pub enum Placement {
    /// Tick marks on both sides of the widget.
    BothSides {
        /// The offset from the edge of the widget.
        offset: u16,
        /// Whether to place the tick marks inside the widget (true) or
        /// outside the widget (false).
        inside: bool,
    },
    /// Tick marks only on the outside left/top side of the widget.
    LeftOrTop {
        /// The offset from the edge of the widget.
        offset: u16,
        /// Whether to place the tick marks inside the widget (true) or
        /// outside the widget (false).
        inside: bool,
    },
    /// Tick marks only on the right/bottom side of the widget.
    RightOrBottom {
        /// The offset from the edge of the widget.
        offset: u16,
        /// Whether to place the tick marks inside the widget (true) or
        /// outside the widget (false).
        inside: bool,
    },
    /// Tick marks in the center of the widget.
    Center {
        /// Whether to fill the length of the widget (true), or not (false).
        /// If this is true, then the length of each tick mark will act as the
        /// padding from the edge of the widget to the tick mark.
        fill_length: bool,
    },
    /// Split tick marks in the center of the widget.
    CenterSplit {
        /// Whether to fill the length of the widget (true), or not (false).
        /// If this is true, then the length of each tick mark will extend from
        /// the edges of the widget.
        fill_length: bool,
        /// The gap between the split tick marks. This has no effect if
        /// `fill_length` is true.
        gap: u16,
    },
}

impl Default for Placement {
    /// Tick marks on both sides, two pixels outside the widget.
    fn default() -> (p: Placement)
        ensures
            p == (Placement::BothSides { offset: 2u16, inside: false }),
    {
        Placement::BothSides { offset: 2, inside: false }
    }
}

} // verus!
