//! Configuration for groups of text marks along a widget.

use vstd::prelude::*;

verus! {

/// The alignment of text in text marks.
#[derive(Debug, Copy, Clone, PartialEq, Eq, Structural)]
pub enum Align {
    /// Align to the start of the text.
    Start,
    /// Align to the end of the text.
    End,
    /// Align to the center of the text.
    Center,
}

} // verus!
