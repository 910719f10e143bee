//! Where the docked strip goes, when a foreground window counts as
//! fullscreen, and what the fullscreen watcher does on each tick.

use vstd::prelude::*;

verus! {

/// A screen rectangle in physical pixels, edges inclusive-exclusive.
#[derive(Clone, Copy, Debug, PartialEq, Eq)]
pub struct Rect {
    pub left: i32,
    pub top: i32,
    pub right: i32,
    pub bottom: i32,
}

/// A window placement: position and size.
#[derive(Clone, Copy, Debug, PartialEq, Eq)]
pub struct Frame {
    pub x: i32,
    pub y: i32,
    pub width: u32,
    pub height: u32,
}

/// The placement of the strip in a work area when no edge reservation is
/// available: full height, flush with the chosen edge.
pub fn fallback_frame(area: Rect, width: u32, left_side: bool) -> (r: Frame)
    requires
        width <= i32::MAX,
        left_side || i32::MIN <= area.right - width,
        i32::MIN <= area.bottom - area.top <= i32::MAX,
    ensures
        r.x == (if left_side { area.left as int } else { area.right - width }),
        r.y == area.top,
        r.width == width,
        r.height == ((area.bottom - area.top) as i32) as u32,
{
    let x = if left_side { area.left } else { area.right - width as i32 };
    Frame { x, y: area.top, width, height: (area.bottom - area.top) as u32 }
}

/// The rectangle of a monitor from its position and size.
pub fn monitor_rect(x: i32, y: i32, width: u32, height: u32) -> (r: Rect)
    requires
        width <= i32::MAX,
        height <= i32::MAX,
        x + width <= i32::MAX,
        y + height <= i32::MAX,
    ensures
        r == (Rect { left: x, top: y, right: (x + width) as i32, bottom: (y + height) as i32 }),
{
    Rect { left: x, top: y, right: x + width as i32, bottom: y + height as i32 }
}

/// The strip anchored to one edge of the monitor, `width` wide, spanning
/// the vertical extent `top..bottom`.
pub open spec fn anchored(monitor: Rect, width: int, left_side: bool, top: i32, bottom: i32) -> Rect {
    if left_side {
        Rect { left: monitor.left, top, right: (monitor.left + width) as i32, bottom }
    } else {
        Rect { left: (monitor.right - width) as i32, top, right: monitor.right, bottom }
    }
}

pub open spec fn fits_on(monitor: Rect, width: i32) -> bool {
    &&& 0 <= width
    &&& monitor.left + width <= i32::MAX
    &&& i32::MIN <= monitor.right - width
}

/// The rectangle to ask the system for: the whole height of the monitor.
pub fn desired_rect(monitor: Rect, width: i32, left_side: bool) -> (r: Rect)
    requires
        fits_on(monitor, width),
    ensures
        r == anchored(monitor, width as int, left_side, monitor.top, monitor.bottom),
{
    if left_side {
        Rect { left: monitor.left, top: monitor.top, right: monitor.left + width, bottom: monitor.bottom }
    } else {
        Rect { left: monitor.right - width, top: monitor.top, right: monitor.right, bottom: monitor.bottom }
    }
}

/// The rectangle to dock to: the system's answer gives only the vertical
/// extent; the horizontal extent stays anchored to the monitor edge, so the
/// strip never drifts away from the edge when its width changes.
pub fn docked_rect(monitor: Rect, width: i32, left_side: bool, queried: Rect) -> (r: Rect)
    requires
        fits_on(monitor, width),
    ensures
        r == anchored(monitor, width as int, left_side, queried.top, queried.bottom),
{
    if left_side {
        Rect { left: monitor.left, top: queried.top, right: monitor.left + width, bottom: queried.bottom }
    } else {
        Rect { left: monitor.right - width, top: queried.top, right: monitor.right, bottom: queried.bottom }
    }
}

/// The strip is docked flush with the chosen edge and exactly `width` wide,
/// whatever the system answered.
pub proof fn law_dock_stays_on_edge(monitor: Rect, width: i32, left_side: bool, queried: Rect)
    requires
        fits_on(monitor, width),
    ensures
        left_side ==> anchored(monitor, width as int, left_side, queried.top, queried.bottom).left == monitor.left,
        !left_side ==> anchored(monitor, width as int, left_side, queried.top, queried.bottom).right == monitor.right,
        anchored(monitor, width as int, left_side, queried.top, queried.bottom).right
            - anchored(monitor, width as int, left_side, queried.top, queried.bottom).left == width,
{
}

/// How far a window may fall short of a monitor edge and still cover it.
pub const FULLSCREEN_TOLERANCE: i32 = 8;

/// A window covers a monitor when each of its edges reaches the monitor's
/// edge, give or take the tolerance.
pub open spec fn covers_spec(window: Rect, monitor: Rect) -> bool {
    &&& window.left <= monitor.left + FULLSCREEN_TOLERANCE
    &&& window.top <= monitor.top + FULLSCREEN_TOLERANCE
    &&& window.right >= monitor.right - FULLSCREEN_TOLERANCE
    &&& window.bottom >= monitor.bottom - FULLSCREEN_TOLERANCE
}

/// A window counts as covering the monitor exactly when each of its four
/// edges reaches the monitor's edge to within 8 pixels: one that stops
/// short of any edge, the right and bottom ones included, never counts.
pub proof fn law_covering_needs_every_edge(window: Rect, monitor: Rect)
    ensures
        covers_spec(window, monitor) <==> {
            &&& window.left <= monitor.left + 8
            &&& window.top <= monitor.top + 8
            &&& window.right >= monitor.right - 8
            &&& window.bottom >= monitor.bottom - 8
        },
{
}

pub open spec fn tolerance_fits(monitor: Rect) -> bool {
    &&& monitor.left + FULLSCREEN_TOLERANCE <= i32::MAX
    &&& monitor.top + FULLSCREEN_TOLERANCE <= i32::MAX
    &&& i32::MIN <= monitor.right - FULLSCREEN_TOLERANCE
    &&& i32::MIN <= monitor.bottom - FULLSCREEN_TOLERANCE
}

pub fn covers(window: Rect, monitor: Rect) -> (r: bool)
    requires
        tolerance_fits(monitor),
    ensures
        r == covers_spec(window, monitor),
{
    window.left <= monitor.left + FULLSCREEN_TOLERANCE && window.top <= monitor.top + FULLSCREEN_TOLERANCE
        && window.right >= monitor.right - FULLSCREEN_TOLERANCE && window.bottom >= monitor.bottom
        - FULLSCREEN_TOLERANCE
}

/// Whether a fullscreen application is in front: the foreground window must
/// be another window, its rectangle and our monitor must be known, and it
/// must cover the monitor.
pub fn fullscreen_verdict(other_window: bool, window: Option<Rect>, monitor: Option<Rect>) -> (r: bool)
    requires
        monitor matches Some(m) ==> tolerance_fits(m),
    ensures
        r == (other_window && window is Some && monitor is Some && covers_spec(
            window->0,
            monitor->0,
        )),
{
    if !other_window {
        return false;
    }
    match (window, monitor) {
        (Some(w), Some(m)) => covers(w, m),
        _ => false,
    }
}

/// What the watcher does on one tick.
pub struct WatchStep {
    /// Hide (`Some(true)`) or show (`Some(false)`) the window, or neither.
    pub toggle: Option<bool>,
    /// Whether the window is hidden afterwards.
    pub hidden: bool,
    /// Whether to re-assert the docked position.
    pub reposition: bool,
}

/// One tick of the fullscreen watcher: follow the fullscreen state with the
/// window's visibility, changing it only when it differs, and re-assert the
/// position while visible.
pub fn watch_tick(hidden: bool, fullscreen: bool) -> (r: WatchStep)
    ensures
        r.hidden == fullscreen,
        r.toggle == (if fullscreen != hidden { Some(fullscreen) } else { None::<bool> }),
        r.reposition == !fullscreen,
{
    let toggle = if fullscreen != hidden { Some(fullscreen) } else { None };
    WatchStep { toggle, hidden: fullscreen, reposition: !fullscreen }
}

} // verus!
