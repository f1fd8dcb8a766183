//! The size of the visible area, in rows and columns.

use vstd::prelude::*;

verus! {

#[derive(Debug, Clone, Copy, PartialEq, Eq, Structural)]
pub struct Viewport {
    /// The number of columns.
    pub x: u16,
    /// The number of rows.
    pub y: u16,
}

impl Viewport {
    pub fn x(&self) -> (cols: u16)
        ensures
            cols == self.x,
    {
        self.x
    }

    pub fn y(&self) -> (rows: u16)
        ensures
            rows == self.y,
    {
        self.y
    }

    /// Rows first, then columns.
    pub fn new(y: u16, x: u16) -> (viewport: Self)
        ensures
            viewport == (Viewport { x, y }),
    {
        Self { y, x }
    }
}

impl Default for Viewport {
    fn default() -> (viewport: Self)
        ensures
            viewport == (Viewport { x: 0, y: 0 }),
    {
        Self { y: 0, x: 0 }
    }
}

/// The rows that are visible when `scroll` rows have scrolled out at the top
/// and `height` rows fit: the rows from `scroll` on, `height` of them at
/// most.
pub open spec fn window<T>(rows: Seq<T>, scroll: u16, height: u16) -> Seq<T> {
    rows.subrange(window_start(rows.len(), scroll), window_end(rows.len(), scroll, height))
}

/// Where the visible rows start among `count` rows.
pub open spec fn window_start(count: nat, scroll: u16) -> int {
    if scroll <= count {
        scroll as int
    } else {
        count as int
    }
}

/// Where the visible rows end among `count` rows.
pub open spec fn window_end(count: nat, scroll: u16, height: u16) -> int {
    if scroll + height <= count {
        scroll + height
    } else {
        count as int
    }
}

/// Where the visible rows start and end among `count` rows.
pub fn window_range(count: usize, scroll: u16, height: u16) -> (range: (usize, usize))
    ensures
        range.0 == window_start(count as nat, scroll),
        range.1 == window_end(count as nat, scroll, height),
        range.0 <= range.1 <= count,
{
    let start: usize = if scroll as usize <= count {
        scroll as usize
    } else {
        count
    };
    let reach: u32 = scroll as u32 + height as u32;
    let end: usize = if reach as usize <= count {
        reach as usize
    } else {
        count
    };
    (start, end)
}

} // verus!
