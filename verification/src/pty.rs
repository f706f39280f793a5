//! Terminal sizes as the pseudo-terminal layer exchanges them.

use vstd::prelude::*;

verus! {

/// Terminal size in rows and columns (and pixels, where known).
#[derive(Debug, Clone, Copy, PartialEq, Eq, Structural)]
pub struct PtySize {
    pub rows: u16,
    pub cols: u16,
    pub pixel_width: u16,
    pub pixel_height: u16,
}

impl Default for PtySize {
    /// 24 rows of 80 columns, pixel size unknown.
    fn default() -> (s: Self)
        ensures
            s == (PtySize { rows: 24, cols: 80, pixel_width: 0, pixel_height: 0 }),
    {
        PtySize { rows: 24, cols: 80, pixel_width: 0, pixel_height: 0 }
    }
}

/// The window size record of the Unix terminal interface (`struct winsize`).
#[derive(Debug, Clone, Copy, PartialEq, Eq, Structural)]
pub struct Winsize {
    pub ws_row: u16,
    pub ws_col: u16,
    pub ws_xpixel: u16,
    pub ws_ypixel: u16,
}

impl From<PtySize> for Winsize {
    fn from(size: PtySize) -> (w: Self) {
        Winsize {
            ws_row: size.rows,
            ws_col: size.cols,
            ws_xpixel: size.pixel_width,
            ws_ypixel: size.pixel_height,
        }
    }
}

impl vstd::std_specs::convert::FromSpecImpl<PtySize> for Winsize {
    open spec fn obeys_from_spec() -> bool {
        true
    }

    open spec fn from_spec(size: PtySize) -> Winsize {
        Winsize {
            ws_row: size.rows,
            ws_col: size.cols,
            ws_xpixel: size.pixel_width,
            ws_ypixel: size.pixel_height,
        }
    }
}

} // verus!
