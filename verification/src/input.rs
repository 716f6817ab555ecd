//! Navigation directives handed to the view coordinator.

use vstd::prelude::*;

verus! {

/// A command for the view, as the command layer hands it over.
#[derive(Clone, Debug)]
pub enum Control {
    ScrollUp,
    ScrollDown,
    ScrollPageUp,
    ScrollPageDown,
    ScrollTop,
    ScrollBottom,
    /// Jump to a line, counted from one.
    ScrollTo(usize),
    /// Restrict the rows to those that match the pattern.
    Filter(String),
    /// Restrict the columns to those whose header matches the pattern.
    FilterColumns(String),
    /// Drop the row and column restrictions.
    Reset,
    Quit,
    Nothing,
}

} // verus!
