//! Geometry of the two terminal panels: the banner panel on the top rows
//! of the viewport and the bar chart panel below it.

use vstd::prelude::*;

verus! {

/// The height in rows of the banner panel.
pub const BANNER_HEIGHT: u16 = 12;

/// The row at which the chart panel starts.
pub const CHART_TOP: u16 = 10;

/// The height in rows of the chart panel.
pub const CHART_HEIGHT: u16 = 18;

/// The width in columns of one chart bar.
pub const BAR_WIDTH: u16 = 4;

/// The gap in columns between chart bars.
pub const BAR_GAP: u16 = 0;

/// A rectangular region of the terminal viewport.
#[derive(Clone, Copy, Debug, PartialEq, Eq, Structural)]
pub struct Region {
    pub x: u16,
    pub y: u16,
    pub width: u16,
    pub height: u16,
}

/// The banner panel region: the top rows, full viewport width.
pub fn banner_region(viewport_width: u16) -> (r: Region)
    ensures
        r == (Region { x: 0, y: 0, width: viewport_width, height: BANNER_HEIGHT }),
{
    Region { x: 0, y: 0, width: viewport_width, height: BANNER_HEIGHT }
}

/// The chart panel region: rows 10 to 27, full viewport width.
pub fn chart_region(viewport_width: u16) -> (r: Region)
    ensures
        r == (Region { x: 0, y: CHART_TOP, width: viewport_width, height: CHART_HEIGHT }),
{
    Region { x: 0, y: CHART_TOP, width: viewport_width, height: CHART_HEIGHT }
}

} // verus!
