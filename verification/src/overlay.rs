//! Overlay window state machine and placement.
//!
//! The native window is owned by an unverified event loop; this module
//! decides, for each incoming event, what that loop must do — the next
//! visibility state and the window operations to perform — and where
//! the window goes: bottom-centred on the target monitor.

use vstd::prelude::*;

use crate::locate::MonitorRect;

verus! {

/// An activation event, produced by the hotkey capture thread and
/// consumed by the window event loop.
#[derive(Debug, Clone, Copy, PartialEq, Eq, Structural)]
pub enum OverlayEvent {
    Show,
    Hide,
    Toggle,
}

/// Visibility of the overlay window. The window is created once and
/// never destroyed; it only moves between these two states.
#[derive(Debug, Clone, Copy, PartialEq, Eq, Structural)]
pub enum OverlayState {
    Hidden,
    Visible,
}

/// What the window event loop must do after one event: reposition the
/// window over the current target, change its visibility, repaint.
#[derive(Debug, Clone, Copy, PartialEq, Eq, Structural)]
pub struct ControllerStep {
    pub next: OverlayState,
    pub reposition: bool,
    pub show_window: bool,
    pub hide_window: bool,
    pub repaint: bool,
}

/// The controller's reaction to one event. A transition into the
/// visible state asks for a fresh reposition and a repaint, and
/// happens only if a composed frame exists: without one, `Show` and
/// `Toggle`-to-visible are inert. `Hide`, and `Toggle` while visible,
/// always leave the window hidden, reposition nothing and repaint
/// nothing.
pub open spec fn controller_spec(
    state: OverlayState,
    event: OverlayEvent,
    has_frame: bool,
) -> ControllerStep {
    let concealing = event == OverlayEvent::Hide || (event == OverlayEvent::Toggle && state
        == OverlayState::Visible);
    if concealing {
        ControllerStep {
            next: OverlayState::Hidden,
            reposition: false,
            show_window: false,
            hide_window: true,
            repaint: false,
        }
    } else if has_frame {
        ControllerStep {
            next: OverlayState::Visible,
            reposition: true,
            show_window: true,
            hide_window: false,
            repaint: true,
        }
    } else {
        ControllerStep {
            next: state,
            reposition: false,
            show_window: false,
            hide_window: false,
            repaint: false,
        }
    }
}

/// Decide the controller's reaction to one event.
pub fn controller_step(state: OverlayState, event: OverlayEvent, has_frame: bool) -> (r:
    ControllerStep)
    ensures
        r == controller_spec(state, event, has_frame),
{
    let concealing = match event {
        OverlayEvent::Hide => true,
        OverlayEvent::Toggle => state == OverlayState::Visible,
        OverlayEvent::Show => false,
    };
    if concealing {
        ControllerStep {
            next: OverlayState::Hidden,
            reposition: false,
            show_window: false,
            hide_window: true,
            repaint: false,
        }
    } else if has_frame {
        ControllerStep {
            next: OverlayState::Visible,
            reposition: true,
            show_window: true,
            hide_window: false,
            repaint: true,
        }
    } else {
        ControllerStep {
            next: state,
            reposition: false,
            show_window: false,
            hide_window: false,
            repaint: false,
        }
    }
}

/// From the hidden state, `Hide` is a no-op: the state stays hidden
/// and no repaint is triggered.
pub proof fn lemma_hide_when_hidden(has_frame: bool)
    ensures
        controller_spec(OverlayState::Hidden, OverlayEvent::Hide, has_frame).next
            == OverlayState::Hidden,
        !controller_spec(OverlayState::Hidden, OverlayEvent::Hide, has_frame).repaint,
        !controller_spec(OverlayState::Hidden, OverlayEvent::Hide, has_frame).reposition,
{
}

/// From the visible state, `Show` changes nothing besides asking for
/// a fresh reposition and repaint: the state stays visible.
pub proof fn lemma_show_when_visible(has_frame: bool)
    requires
        has_frame,
    ensures
        controller_spec(OverlayState::Visible, OverlayEvent::Show, has_frame).next
            == OverlayState::Visible,
        controller_spec(OverlayState::Visible, OverlayEvent::Show, has_frame).reposition,
        controller_spec(OverlayState::Visible, OverlayEvent::Show, has_frame).repaint,
{
}

/// The horizontal origin of a window of the given width, centred on
/// the monitor; the division rounds towards zero, as the windowing
/// arithmetic does.
pub open spec fn placement_x(m: MonitorRect, w: int) -> int {
    if m.width >= w {
        m.x + (m.width - w) / 2
    } else {
        m.x - (w - m.width) / 2
    }
}

/// The vertical origin of a window of the given height whose bottom
/// edge sits on the monitor's bottom edge.
pub open spec fn placement_y(m: MonitorRect, h: int) -> int {
    m.y + m.height - h
}

/// Where the overlay window goes: horizontally centred on the target
/// monitor, bottom edge on the monitor's bottom edge.
pub fn overlay_position(m: &MonitorRect, width: u32, height: u32) -> (r: (i64, i64))
    ensures
        r.0 as int == placement_x(*m, width as int),
        r.1 as int == placement_y(*m, height as int),
{
    let x: i64 = if m.width >= width {
        (m.x as i64) + (((m.width - width) / 2) as i64)
    } else {
        (m.x as i64) - (((width - m.width) / 2) as i64)
    };
    let y: i64 = (m.y as i64) + (m.height as i64) - (height as i64);
    (x, y)
}

} // verus!
