//! Terminal geometry.

use vstd::prelude::*;

verus! {

/// The visible area of a terminal: its extent in character cells and the
/// extent of one cell in pixels.
#[derive(Clone, Copy, Debug, PartialEq, Eq, Structural)]
pub struct TerminalSize {
    /// Number of lines of text.
    pub rows: u16,
    /// Number of columns of text.
    pub cols: u16,
    /// Width of a cell in pixels; zero when unused.
    pub pixel_width: u16,
    /// Height of a cell in pixels; zero when unused.
    pub pixel_height: u16,
}

impl TerminalSize {
    /// The size of `rows` by `cols` cells that leaves the pixel extents unused.
    pub open spec fn spec_cells(rows: u16, cols: u16) -> TerminalSize {
        TerminalSize { rows, cols, pixel_width: 0, pixel_height: 0 }
    }

    /// Builds the size of `rows` by `cols` cells with both pixel extents zero.
    #[verifier::when_used_as_spec(spec_cells)]
    pub fn cells(rows: u16, cols: u16) -> (size: TerminalSize)
        ensures
            size == Self::spec_cells(rows, cols),
    {
        TerminalSize { rows, cols, pixel_width: 0, pixel_height: 0 }
    }
}

} // verus!
