//! Desktop-wallpaper surface placement and the stop channel between engine
//! instances.
//!
//! The window-system calls are made by the caller; this module holds what is
//! decided around them: where the wallpaper window goes, and how the outcome
//! of opening/signalling the named stop event is answered.

use vstd::prelude::*;

verus! {

/// A monitor's rectangle in virtual-desktop (physical pixel) coordinates.
#[derive(Clone, Copy, Debug, PartialEq, Eq, Structural)]
pub struct MonitorRect {
    pub x: i32,
    pub y: i32,
    pub w: i32,
    pub h: i32,
}

/// Opaque handle that keeps the stop-watcher alive. Dropping it does not stop
/// the watcher; it just marks ownership.
pub struct StopGuard {
    _private: (),
}

/// Session-local name of the wallpaper stop event.
pub const STOP_EVENT_NAME: &'static str = "real_live_wall_stop_event_v1";

/// `WAIT_OBJECT_0`: the waited-on event was signalled.
pub const WAIT_OBJECT_0: u32 = 0;

/// Where the wallpaper window goes inside the desktop layer, whose client
/// origin is the virtual-desktop top-left `(vx, vy)`: the monitor's rectangle
/// shifted into that space, same size.
pub fn wallpaper_placement(rect: MonitorRect, vx: i32, vy: i32) -> (r: MonitorRect)
    requires
        i32::MIN <= rect.x - vx <= i32::MAX,
        i32::MIN <= rect.y - vy <= i32::MAX,
    ensures
        r.x == rect.x - vx,
        r.y == rect.y - vy,
        r.w == rect.w,
        r.h == rect.h,
{
    MonitorRect { x: rect.x - vx, y: rect.y - vy, w: rect.w, h: rect.h }
}

/// Called by a wallpaper process once it has tried to create the stop event
/// (`event_ready`: created and valid) and, if so, to start the thread that
/// waits on it. A guard is handed out only when both worked; otherwise remote
/// stop is disabled.
pub fn watch_for_stop(event_ready: bool, watcher_started: bool) -> (r: Option<StopGuard>)
    ensures
        r is Some <==> event_ready && watcher_started,
{
    if event_ready && watcher_started {
        Some(StopGuard { _private: () })
    } else {
        None
    }
}

/// Whether the watcher should run its stop action for a wait result: only
/// when the event itself was signalled.
pub fn stop_requested(wait_result: u32) -> (r: bool)
    ensures
        r == (wait_result == WAIT_OBJECT_0),
{
    wait_result == WAIT_OBJECT_0
}

/// Ask a running wallpaper process to exit: true only if its stop event could
/// be opened and was set.
pub fn signal_stop(event_opened: bool, event_set: bool) -> (r: bool)
    ensures
        r == (event_opened && event_set),
{
    event_opened && event_set
}

/// Whether a wallpaper process is currently running: its stop event exists
/// (opens with a valid handle).
pub fn wallpaper_running(event_opened: bool, handle_valid: bool) -> (r: bool)
    ensures
        r == (event_opened && handle_valid),
{
    event_opened && handle_valid
}

} // verus!
