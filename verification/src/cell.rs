//! One painted character cell of a frame.

use vstd::prelude::*;

verus! {

/// A single cell that a frame paints: a glyph at a column and row, with a
/// brightness in thousandths (`0` is black, `1000` is full brightness).
///
/// The embedding program turns `brightness_milli` together with the global
/// hue into an RGB colour; the library itself never touches colour spaces.
#[derive(Clone, Copy, Debug, PartialEq, Eq, Structural)]
pub struct Cell {
    /// Terminal column.
    pub col: u16,
    /// Terminal row.
    pub row: u16,
    /// ASCII letter or digit to draw.
    pub glyph: u8,
    /// Brightness in thousandths, between 100 and 660 for rendered streaks.
    pub brightness_milli: u16,
}

} // verus!
