//! Window frames.
//!
//! A frame names the rows, relative to the current row of a partition, over
//! which a window function is evaluated. Callers may leave the frame out, or
//! give only some of its offsets; this file turns what they gave into a frame
//! with both bounds in place.

use vstd::prelude::*;

verus! {

/// The unit in which the offsets of a frame are counted.
#[derive(Clone, Copy, Debug, PartialEq, Eq, Hash, Structural)]
pub enum WindowFrameUnits {
    Rows,
    Range,
    Groups,
}

/// One end of a frame.
#[derive(Clone, Copy, Debug, PartialEq, Eq, Hash, Structural)]
pub enum WindowFrameBound {
    /// The first row of the partition.
    UnboundedPreceding,
    /// So many units before the current row.
    Preceding(u64),
    /// The current row.
    CurrentRow,
    /// So many units after the current row.
    Following(u64),
    /// The last row of the partition.
    UnboundedFollowing,
}

impl WindowFrameBound {
    /// Whether the bound lies at the current row: named as such, or at offset zero.
    pub open spec fn at_current_row(self) -> bool {
        self == WindowFrameBound::CurrentRow || self == WindowFrameBound::Preceding(0) || self
            == WindowFrameBound::Following(0)
    }
}

/// A frame with its unit and both bounds.
#[derive(Clone, Copy, Debug, PartialEq, Eq, Hash, Structural)]
pub struct WindowFrame {
    pub units: WindowFrameUnits,
    pub start_bound: WindowFrameBound,
    pub end_bound: WindowFrameBound,
}

/// The start bound for an offset that may have been left out: an offset counts
/// back from the current row, and without one the frame starts with the partition.
pub open spec fn start_bound_for(offset: Option<u64>) -> WindowFrameBound {
    match offset {
        Some(n) => WindowFrameBound::Preceding(n),
        None => WindowFrameBound::UnboundedPreceding,
    }
}

/// The end bound for an offset that may have been left out: an offset counts
/// forward from the current row, and without one the frame ends with the partition.
pub open spec fn end_bound_for(offset: Option<u64>) -> WindowFrameBound {
    match offset {
        Some(n) => WindowFrameBound::Following(n),
        None => WindowFrameBound::UnboundedFollowing,
    }
}

/// The frame used when the caller gives none: every row from the start of the
/// partition up to the current row.
pub open spec fn default_frame() -> WindowFrame {
    WindowFrame {
        units: WindowFrameUnits::Rows,
        start_bound: start_bound_for(None),
        end_bound: end_bound_for(Some(0)),
    }
}

/// The frame that a window function is built with, given what the caller supplied.
pub open spec fn resolved_frame(given: Option<WindowFrame>) -> WindowFrame {
    match given {
        Some(frame) => frame,
        None => default_frame(),
    }
}

impl WindowFrame {
    /// A frame from its unit and the offsets the caller gave. The offsets are taken
    /// as they are: that the start lies before the end, or that the bounds suit the
    /// unit, is not looked at here.
    pub fn new(units: WindowFrameUnits, start: Option<u64>, end: Option<u64>) -> (frame:
        WindowFrame)
        ensures
            frame == (WindowFrame {
                units,
                start_bound: start_bound_for(start),
                end_bound: end_bound_for(end),
            }),
    {
        let start_bound = match start {
            Some(n) => WindowFrameBound::Preceding(n),
            None => WindowFrameBound::UnboundedPreceding,
        };
        let end_bound = match end {
            Some(n) => WindowFrameBound::Following(n),
            None => WindowFrameBound::UnboundedFollowing,
        };
        WindowFrame { units, start_bound, end_bound }
    }

    /// The frame to build with: the one given, or the default.
    pub fn resolve(given: Option<WindowFrame>) -> (frame: WindowFrame)
        ensures
            frame == resolved_frame(given),
    {
        match given {
            Some(frame) => frame,
            None => WindowFrame::default(),
        }
    }
}

impl Default for WindowFrame {
    /// The frame used when the caller gives none.
    fn default() -> (frame: WindowFrame)
        ensures
            frame == default_frame(),
    {
        WindowFrame::new(WindowFrameUnits::Rows, None, Some(0))
    }
}

/// The default frame counts rows, starts with the partition and ends at the
/// current row, with offset zero.
pub proof fn lemma_default_frame()
    ensures
        default_frame().units == WindowFrameUnits::Rows,
        default_frame().start_bound == WindowFrameBound::UnboundedPreceding,
        default_frame().end_bound == WindowFrameBound::Following(0),
        default_frame().end_bound.at_current_row(),
{
}

} // verus!
