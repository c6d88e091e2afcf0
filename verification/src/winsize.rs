//! Terminal window geometry: rows, columns, and pixel dimensions.
//!
//! The kernel reads and writes this record through its terminal-geometry
//! control operation; the embedding program performs those calls and
//! carries the values in and out as a `WinSize`.

use vstd::prelude::*;

verus! {

/// A terminal's window size, as the kernel reports it: character rows and
/// columns, and the window's dimensions in pixels.
#[derive(Debug, Clone, Copy, PartialEq, Eq, Structural)]
pub struct WinSize {
    pub row: u16,
    pub col: u16,
    pub xpixel: u16,
    pub ypixel: u16,
}

impl WinSize {
    /// A window size from its four components.
    pub fn new(row: u16, col: u16, xpixel: u16, ypixel: u16) -> (w: WinSize)
        ensures
            w == (WinSize { row, col, xpixel, ypixel }),
    {
        WinSize { row, col, xpixel, ypixel }
    }
}

} // verus!
