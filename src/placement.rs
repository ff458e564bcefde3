use vstd::prelude::*;

verus! {

/// Screen bounds, edges in physical pixels, `right` and `bottom` exclusive.
#[derive(Clone, Copy, Debug, PartialEq, Eq, Structural)]
pub struct Bounds {
    pub left: i64,
    pub top: i64,
    pub right: i64,
    pub bottom: i64,
}

/// Gap kept between the window and the bottom of the work area.
pub const BOTTOM_MARGIN: i64 = 10;

pub fn rect_inside_rect(
    left: i64,
    top: i64,
    right: i64,
    bottom: i64,
    outer_left: i64,
    outer_top: i64,
    outer_right: i64,
    outer_bottom: i64,
) -> (r: bool)
    ensures
        r == (left >= outer_left && top >= outer_top && right <= outer_right && bottom <= outer_bottom),
{
    left >= outer_left && top >= outer_top && right <= outer_right && bottom <= outer_bottom
}

/// The bounds of a monitor from its position and size.
pub fn monitor_bounds(x: i32, y: i32, width: u32, height: u32) -> (b: Bounds)
    ensures
        b == (Bounds { left: x as i64, top: y as i64, right: (x + width) as i64, bottom: (y + height) as i64 }),
{
    Bounds { left: x as i64, top: y as i64, right: x as i64 + width as i64, bottom: y as i64 + height as i64 }
}

/// The area to place the window in: the system's work area (the monitor
/// less the task bar) when there is one and it lies within the monitor,
/// else the whole monitor.
pub fn work_area_bounds(monitor: Bounds, work_area: Option<Bounds>) -> (r: Bounds)
    ensures
        r == (if work_area matches Some(w) && w.left >= monitor.left && w.top >= monitor.top && w.right
            <= monitor.right && w.bottom <= monitor.bottom {
            work_area->0
        } else {
            monitor
        }),
{
    match work_area {
        Some(w) => {
            if rect_inside_rect(
                w.left,
                w.top,
                w.right,
                w.bottom,
                monitor.left,
                monitor.top,
                monitor.right,
                monitor.bottom,
            ) {
                w
            } else {
                monitor
            }
        },
        None => monitor,
    }
}

/// Half of `n`, rounded to the nearest integer, halves away from zero.
pub open spec fn half_rounded(n: int) -> int {
    if n >= 0 {
        (n + 1) / 2
    } else {
        -((-n + 1) / 2)
    }
}

pub open spec fn saturate_i32(v: int) -> i32 {
    if v < i32::MIN {
        i32::MIN
    } else if v > i32::MAX {
        i32::MAX
    } else {
        v as i32
    }
}

/// The top-left corner that centres a window horizontally in the area and
/// puts its bottom edge `BOTTOM_MARGIN` above the area's bottom.
pub open spec fn bottom_centre(area: Bounds, width: u32, height: u32) -> (i32, i32) {
    (
        saturate_i32(half_rounded(area.left + area.right - width)),
        saturate_i32(area.bottom - height - BOTTOM_MARGIN),
    )
}

fn clamp_i32(v: i128) -> (r: i32)
    ensures
        r == saturate_i32(v as int),
{
    if v < i32::MIN as i128 {
        i32::MIN
    } else if v > i32::MAX as i128 {
        i32::MAX
    } else {
        v as i32
    }
}

/// Where to put a window of the given outer size in the area.
pub fn bottom_centre_position(area: Bounds, width: u32, height: u32) -> (r: (i32, i32))
    ensures
        r == bottom_centre(area, width, height),
{
    let n = area.left as i128 + area.right as i128 - width as i128;
    let x = if n >= 0 {
        (n + 1) / 2
    } else {
        -((-n + 1) / 2)
    };
    let y = area.bottom as i128 - height as i128 - BOTTOM_MARGIN as i128;
    (clamp_i32(x), clamp_i32(y))
}

} // verus!
