//! Screen geometry: points, rectangles, the taskbar test, and the margins of
//! the on-screen display.

use vstd::prelude::*;

verus! {

/// Width of the volume display.
pub const OSD_WIDTH: i32 = 300;

/// Height of the volume display.
pub const OSD_HEIGHT: i32 = 80;

/// Width of the settings panel.
pub const PANEL_WIDTH: i32 = 320;

/// Height of the settings panel.
pub const PANEL_HEIGHT: i32 = 280;

/// Gap kept between the window and the edges of the work area.
pub const EDGE_MARGIN: i32 = 20;

/// Gap kept below the volume display.
pub const OSD_BOTTOM_MARGIN: i32 = 0;

/// A point in screen coordinates.
#[derive(Clone, Copy, Debug, PartialEq, Eq, Structural)]
pub struct Point {
    pub x: i32,
    pub y: i32,
}

/// A rectangle in screen coordinates; `right` and `bottom` lie outside it.
#[derive(Clone, Copy, Debug, PartialEq, Eq, Structural)]
pub struct Rect {
    pub left: i32,
    pub top: i32,
    pub right: i32,
    pub bottom: i32,
}

/// The whole area of a monitor and the part of it not covered by the taskbar.
#[derive(Clone, Copy, Debug, PartialEq, Eq, Structural)]
pub struct MonitorInfo {
    pub monitor: Rect,
    pub work: Rect,
}

impl Rect {
    /// `p` lies in the rectangle, left and top edges included.
    pub open spec fn spec_contains(self, p: Point) -> bool {
        &&& self.left <= p.x < self.right
        &&& self.top <= p.y < self.bottom
    }

    /// Whether `p` lies in the rectangle, left and top edges included.
    pub fn contains(&self, p: Point) -> (r: bool)
        ensures
            r == self.spec_contains(p),
    {
        p.x >= self.left && p.x < self.right && p.y >= self.top && p.y < self.bottom
    }
}

/// `point` lies on the monitor but outside its work area.
pub open spec fn over_taskbar(point: Point, info: MonitorInfo) -> bool {
    info.monitor.spec_contains(point) && !info.work.spec_contains(point)
}

/// Whether `point` is over the taskbar of the monitor described by `info`:
/// on the monitor but outside its work area. Without monitor information the
/// answer is no.
pub fn is_point_over_taskbar(point: Point, info: Option<MonitorInfo>) -> (r: bool)
    ensures
        r == (match info {
            Some(i) => over_taskbar(point, i),
            None => false,
        }),
{
    match info {
        Some(i) => i.monitor.contains(point) && !i.work.contains(point),
        None => false,
    }
}

/// Whether the cursor lies over the window, given the cursor position and the
/// window bounds when the system could report them.
pub fn is_cursor_over_window(cursor: Option<Point>, bounds: Option<Rect>) -> (r: bool)
    ensures
        r == (match (cursor, bounds) {
            (Some(p), Some(b)) => b.spec_contains(p),
            _ => false,
        }),
{
    match (cursor, bounds) {
        (Some(p), Some(b)) => b.contains(p),
        _ => false,
    }
}

/// The gap below a window of the given size: none under the volume display,
/// the edge margin under anything else.
pub fn bottom_margin(width: i32, height: i32) -> (m: i32)
    ensures
        m == (if width == OSD_WIDTH && height == OSD_HEIGHT {
            OSD_BOTTOM_MARGIN
        } else {
            EDGE_MARGIN
        }),
{
    if width == OSD_WIDTH && height == OSD_HEIGHT {
        OSD_BOTTOM_MARGIN
    } else {
        EDGE_MARGIN
    }
}

/// Law: on a monitor whose work area covers the whole monitor (no visible
/// taskbar) no point is over the taskbar, and any point over the taskbar
/// lies on the monitor.
pub proof fn law_taskbar_is_monitor_minus_work_area(point: Point, info: MonitorInfo)
    ensures
        info.work == info.monitor ==> !over_taskbar(point, info),
        over_taskbar(point, info) ==> info.monitor.spec_contains(point),
        over_taskbar(point, info) ==> !info.work.spec_contains(point),
{
}

/// Law: a rectangle holds exactly the points with `left <= x < right` and
/// `top <= y < bottom`.
pub proof fn law_rect_contains(r: Rect, p: Point)
    ensures
        r.spec_contains(p) <==> (r.left <= p.x && p.x < r.right && r.top <= p.y && p.y
            < r.bottom),
{
}

/// Law: a point is over the taskbar exactly when it lies on the monitor and
/// outside the work area, on any side of it (taskbar at the bottom, top,
/// left or right).
pub proof fn law_over_taskbar_exactly(p: Point, info: MonitorInfo)
    ensures
        over_taskbar(p, info) <==> ({
            &&& info.monitor.left <= p.x < info.monitor.right
            &&& info.monitor.top <= p.y < info.monitor.bottom
            &&& !(info.work.left <= p.x < info.work.right && info.work.top <= p.y
                < info.work.bottom)
        }),
{
}

} // verus!
