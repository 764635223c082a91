//! The target locator: where the overlay should appear.
//!
//! The anchor is the centre of the active window where one is known,
//! otherwise the pointer position; the anchor is then resolved to the
//! monitor containing it by a point-in-rectangle test across the
//! connected displays. The platform queries themselves — active
//! window, pointer, display list — are the event loop's job: it asks
//! best-effort and hands in whatever it learnt, a failed query as
//! `None`, never an error, so a missing signal can only ever mean
//! falling through to the next one.

use vstd::prelude::*;

use crate::strutil::{decimal_of, u64_to_string};

verus! {

/// One connected display: its origin and size on the virtual screen.
#[derive(Debug, Clone, Copy, PartialEq, Eq, Structural)]
pub struct MonitorRect {
    pub x: i32,
    pub y: i32,
    pub width: u32,
    pub height: u32,
}

/// The active window's reported bounds on the virtual screen.
#[derive(Debug, Clone, Copy, PartialEq, Eq, Structural)]
pub struct WindowBounds {
    pub x: i32,
    pub y: i32,
    pub width: i32,
    pub height: i32,
}

/// An anchor for positioning: the point of interest and the monitor
/// that contains it.
#[derive(Debug, Clone, Copy, PartialEq, Eq, Structural)]
pub struct AnchorPoint {
    pub x: i64,
    pub y: i64,
    pub monitor: MonitorRect,
}

/// Half of a value, rounded towards zero.
pub open spec fn half_toward_zero(v: int) -> int {
    if v >= 0 {
        v / 2
    } else {
        -((-v) / 2)
    }
}

/// The centre of the active window, rounded towards zero on each
/// axis.
pub open spec fn window_center(w: WindowBounds) -> (int, int) {
    (w.x + half_toward_zero(w.width as int), w.y + half_toward_zero(w.height as int))
}

/// Whether a point lies on a monitor.
pub open spec fn monitor_contains(m: MonitorRect, px: int, py: int) -> bool {
    m.x <= px < m.x + m.width && m.y <= py < m.y + m.height
}

/// The first monitor of the list that contains the point.
pub open spec fn first_monitor_hit(ms: Seq<MonitorRect>, px: int, py: int) -> Option<MonitorRect>
    decreases ms.len(),
{
    if ms.len() == 0 {
        None
    } else if monitor_contains(ms[0], px, py) {
        Some(ms[0])
    } else {
        first_monitor_hit(ms.drop_first(), px, py)
    }
}

proof fn lemma_first_monitor_hit_step(ms: Seq<MonitorRect>, px: int, py: int, i: int)
    requires
        0 <= i <= ms.len(),
        forall|j: int| 0 <= j < i ==> !monitor_contains(ms[j], px, py),
    ensures
        first_monitor_hit(ms, px, py) == first_monitor_hit(
            ms.subrange(i, ms.len() as int),
            px,
            py,
        ),
    decreases i,
{
    if i > 0 {
        lemma_first_monitor_hit_step(ms, px, py, i - 1);
        let t = ms.subrange(i - 1, ms.len() as int);
        assert(!monitor_contains(t[0], px, py));
        assert(t.drop_first() =~= ms.subrange(i, ms.len() as int));
    } else {
        assert(ms.subrange(0, ms.len() as int) =~= ms);
    }
}

/// Find the monitor containing a point, scanning the list in order.
pub fn monitor_at_point(px: i64, py: i64, monitors: &Vec<MonitorRect>) -> (r: Option<MonitorRect>)
    ensures
        r == first_monitor_hit(monitors@, px as int, py as int),
{
    let mut i: usize = 0;
    while i < monitors.len()
        invariant
            i <= monitors@.len(),
            forall|j: int| 0 <= j < i ==> !monitor_contains(monitors@[j], px as int, py as int),
        decreases monitors@.len() - i,
    {
        let m = monitors[i];
        let inside_x = (m.x as i64) <= px && px < (m.x as i64) + (m.width as i64);
        let inside_y = (m.y as i64) <= py && py < (m.y as i64) + (m.height as i64);
        if inside_x && inside_y {
            proof {
                lemma_first_monitor_hit_step(monitors@, px as int, py as int, i as int);
                assert(monitors@.subrange(i as int, monitors@.len() as int)[0] == monitors@[
                    i as int]);
            }
            return Some(m);
        }
        i = i + 1;
    }
    proof {
        lemma_first_monitor_hit_step(monitors@, px as int, py as int, monitors@.len() as int);
    }
    None
}

/// The anchor coordinates, before monitor resolution: the active
/// window's centre where one is known, else the pointer position,
/// else nothing.
pub open spec fn anchor_xy(active: Option<WindowBounds>, pointer: Option<(i32, i32)>) -> Option<
    (int, int),
> {
    match active {
        Some(w) => Some(window_center(w)),
        None => match pointer {
            Some(p) => Some((p.0 as int, p.1 as int)),
            None => None,
        },
    }
}

/// The full locator outcome: the anchor point together with its
/// monitor, or nothing when no anchor or no containing monitor is
/// known — the caller then skips repositioning and reuses the last
/// placement.
pub open spec fn locate_spec(
    active: Option<WindowBounds>,
    pointer: Option<(i32, i32)>,
    monitors: Seq<MonitorRect>,
) -> Option<AnchorPoint> {
    match anchor_xy(active, pointer) {
        None => None,
        Some(p) => match first_monitor_hit(monitors, p.0, p.1) {
            None => None,
            Some(m) => Some(AnchorPoint { x: p.0 as i64, y: p.1 as i64, monitor: m }),
        },
    }
}

fn half_i32(v: i32) -> (r: i64)
    ensures
        r as int == half_toward_zero(v as int),
{
    if v >= 0 {
        (v as i64) / 2
    } else {
        -((-(v as i64)) / 2)
    }
}

/// Resolve the anchor from the known signals: active window first,
/// pointer second, and the containing monitor for whichever is there.
pub fn locate(
    active: Option<WindowBounds>,
    pointer: Option<(i32, i32)>,
    monitors: &Vec<MonitorRect>,
) -> (r: Option<AnchorPoint>)
    ensures
        r == locate_spec(active, pointer, monitors@),
{
    let pt: Option<(i64, i64)> = match active {
        Some(w) => Some((w.x as i64 + half_i32(w.width), w.y as i64 + half_i32(w.height))),
        None => match pointer {
            Some(p) => Some((p.0 as i64, p.1 as i64)),
            None => None,
        },
    };
    match pt {
        Some(p) => match monitor_at_point(p.0, p.1, monitors) {
            Some(m) => Some(AnchorPoint { x: p.0, y: p.1, monitor: m }),
            None => None,
        },
        None => None,
    }
}

/// A report entry for one connected display, as the diagnostic
/// listing shows it: its name and its scale factor, already rendered
/// as text.
#[derive(Debug, PartialEq, Eq)]
pub struct MonitorInfo {
    pub name: String,
    pub scale: String,
}

/// One line of the diagnostic listing.
pub open spec fn monitor_line(i: int, m: MonitorInfo) -> Seq<char> {
    "Monitor "@ + decimal_of(i) + ": "@ + m.name@ + ", scale "@ + m.scale@
}

/// Render the diagnostic listing of the connected displays, one line
/// per monitor, numbered in order.
pub fn diagnose(monitors: &Vec<MonitorInfo>) -> (r: Vec<String>)
    ensures
        r@.len() == monitors@.len(),
        forall|i: int| 0 <= i < monitors@.len() ==> r@[i]@ == monitor_line(i, monitors@[i]),
{
    let mut r: Vec<String> = Vec::new();
    let mut i: usize = 0;
    while i < monitors.len()
        invariant
            i <= monitors@.len(),
            r@.len() == i,
            forall|j: int| 0 <= j < i ==> r@[j]@ == monitor_line(j, monitors@[j]),
        decreases monitors@.len() - i,
    {
        let mut line = "Monitor ".to_owned();
        line.append(u64_to_string(i as u64).as_str());
        line.append(": ");
        line.append(monitors[i].name.as_str());
        line.append(", scale ");
        line.append(monitors[i].scale.as_str());
        proof {
            assert(line@ =~= monitor_line(i as int, monitors@[i as int]));
        }
        r.push(line);
        i = i + 1;
    }
    r
}

} // verus!
