//! The overlay engine: configuration in, directives out.
//!
//! The engine owns the composed frame and the visibility state. The
//! unverified event loop hands it each activation event together with
//! a freshly located anchor, and carries out the directives it gets
//! back: move the window, show or hide it, repaint. The engine never
//! touches a windowing interface itself.

use vstd::prelude::*;

use crate::compose::{build_frame, build_outcome, Opacity, OverlayFrame};
use crate::config::{validate_config, validate_hotkey_outcome, EngineConfig, EngineError};
use crate::locate::AnchorPoint;
use crate::overlay::{controller_spec, controller_step, overlay_position, placement_x, placement_y, OverlayEvent, OverlayState};

verus! {

/// What the event loop must carry out after one event.
#[derive(Debug, Clone, Copy, PartialEq, Eq)]
pub struct EngineDirectives {
    /// Where to move the window, where a fresh anchor was found; with
    /// none, the window keeps its last placement.
    pub position: Option<(i64, i64)>,
    pub show_window: bool,
    pub hide_window: bool,
    pub repaint: bool,
}

/// The engine: the immutable frame built at startup and the current
/// visibility state.
pub struct Engine {
    pub width: u32,
    pub height: u32,
    pub frame: Option<OverlayFrame>,
    pub state: OverlayState,
}

impl Engine {
    /// Build an engine from a validated configuration and the
    /// candidate image byte buffers, in falling priority order. The
    /// returned index says which candidate the frame came from, or
    /// nothing where none decoded — the engine then starts with the
    /// overlay permanently empty.
    pub fn new(cfg: &EngineConfig, candidates: &Vec<Vec<u8>>) -> (r: Result<
        (Engine, Option<usize>),
        EngineError,
    >)
        requires
            cfg.wf(),
            4 * cfg.width * cfg.height <= usize::MAX,
        ensures
            r is Ok <==> cfg.valid(),
            r matches Ok(p) ==> {
                let eng = p.0;
                &&& eng.width == cfg.width
                &&& eng.height == cfg.height
                &&& eng.state == OverlayState::Hidden
                &&& (eng.frame is Some <==> p.1 is Some)
                &&& build_outcome(
                    engine_build_result(eng.frame, p.1),
                    candidates.deep_view(),
                    cfg.width as nat,
                    cfg.height as nat,
                    cfg.invert,
                    cfg.opacity,
                )
            },
            r matches Err(e) ==> !cfg.valid() && (if cfg.width == 0 || cfg.height == 0 {
                e == EngineError::InvalidDimensions
            } else {
                e matches EngineError::InvalidHotkey(he) && Err::<(), crate::hotkey::HotkeyError>(
                    he,
                ) == validate_hotkey_outcome(cfg.hotkey@)
            }),
    {
        match validate_config(cfg) {
            Err(e) => Err(e),
            Ok(()) => {
                match build_frame(candidates, cfg.width, cfg.height, cfg.invert, cfg.opacity) {
                    Some((frame, used)) => {
                        let eng = Engine {
                            width: cfg.width,
                            height: cfg.height,
                            frame: Some(frame),
                            state: OverlayState::Hidden,
                        };
                        Ok((eng, Some(used)))
                    },
                    None => {
                        let eng = Engine {
                            width: cfg.width,
                            height: cfg.height,
                            frame: None,
                            state: OverlayState::Hidden,
                        };
                        Ok((eng, None))
                    },
                }
            },
        }
    }

    /// React to one activation event. The controller decides the
    /// transition; a fresh anchor turns into a bottom-centred window
    /// position, a missing one leaves the last placement in force.
    pub fn handle_event(&mut self, event: OverlayEvent, anchor: Option<AnchorPoint>) -> (d:
        EngineDirectives)
        ensures
            final(self).width == old(self).width,
            final(self).height == old(self).height,
            final(self).frame == old(self).frame,
            final(self).state == controller_spec(
                old(self).state,
                event,
                old(self).frame is Some,
            ).next,
            d.show_window == controller_spec(
                old(self).state,
                event,
                old(self).frame is Some,
            ).show_window,
            d.hide_window == controller_spec(
                old(self).state,
                event,
                old(self).frame is Some,
            ).hide_window,
            d.repaint == controller_spec(old(self).state, event, old(self).frame is Some).repaint,
            d.position is Some <==> (controller_spec(
                old(self).state,
                event,
                old(self).frame is Some,
            ).reposition && anchor is Some),
            d.position matches Some(p) ==> {
                let m = anchor.unwrap().monitor;
                &&& p.0 as int == placement_x(m, old(self).width as int)
                &&& p.1 as int == placement_y(m, old(self).height as int)
            },
    {
        let step = controller_step(self.state, event, self.frame.is_some());
        self.state = step.next;
        let position: Option<(i64, i64)> = if step.reposition {
            match anchor {
                Some(a) => Some(overlay_position(&a.monitor, self.width, self.height)),
                None => None,
            }
        } else {
            None
        };
        EngineDirectives {
            position,
            show_window: step.show_window,
            hide_window: step.hide_window,
            repaint: step.repaint,
        }
    }

    /// The composed pixels to paint, where a frame exists; painting
    /// is skipped silently without one.
    pub fn frame_pixels(&self) -> (r: Option<&Vec<u32>>)
        ensures
            match r {
                Some(px) => self.frame is Some && px@ == self.frame.unwrap().pixels@,
                None => self.frame is None,
            },
    {
        match &self.frame {
            Some(f) => Some(&f.pixels),
            None => None,
        }
    }
}

/// The frame and source index as the compositor reported them: both
/// present or both absent.
pub open spec fn engine_build_result(
    frame: Option<OverlayFrame>,
    used: Option<usize>,
) -> Option<(OverlayFrame, usize)> {
    if frame is Some && used is Some {
        Some((frame.unwrap(), used.unwrap()))
    } else {
        None
    }
}

} // verus!
