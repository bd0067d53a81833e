//! The cells of the textual progress bar.

use vstd::prelude::*;

verus! {

/// Number of cells in the progress bar.
pub const BAR_WIDTH: u8 = 50;

/// What the cell at position `i` shows when the arrow stands at `pos`:
/// a `=` behind the arrow, the `>` arrow itself, and a space ahead of it.
pub open spec fn spec_bar_cell(i: int, pos: u8) -> u8 {
    if i < pos {
        61u8  // '='
    } else if i == pos {
        62u8  // '>'
    } else {
        32u8  // ' '
    }
}

/// The `BAR_WIDTH` cells of the progress bar with the arrow at `pos`;
/// `pos == BAR_WIDTH` leaves the bar full with no arrow shown.
pub fn progress_bar(pos: u8) -> (r: Vec<u8>)
    requires
        pos <= BAR_WIDTH,
    ensures
        r@.len() == BAR_WIDTH,
        forall|i: int| 0 <= i < BAR_WIDTH ==> #[trigger] r@[i] == spec_bar_cell(i, pos),
{
    let mut cells: Vec<u8> = Vec::new();
    let mut ele: u8 = 0;
    while ele < BAR_WIDTH
        invariant
            ele <= BAR_WIDTH,
            cells@.len() == ele,
            forall|i: int| 0 <= i < ele ==> cells@[i] == spec_bar_cell(i, pos),
        decreases BAR_WIDTH - ele,
    {
        if ele < pos {
            cells.push(61u8);
        } else if ele == pos {
            cells.push(62u8);
        } else {
            cells.push(32u8);
        }
        ele = ele + 1;
    }
    cells
}

} // verus!
