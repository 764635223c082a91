//! Reveal-on-demand screen overlay engine.
//!
//! A global key combination toggles a borderless, click-through,
//! always-on-top window that shows a reference image near the user's
//! point of focus. This crate holds the verified core: the hotkey
//! vocabulary and parser, the press/release tracking state machine,
//! the pixel compositing pipeline, the target locator, and the overlay
//! window state machine. Platform plumbing (the OS input hook, the
//! native window and surface, configuration files) lives outside and
//! drives the engine through the directives it hands back.

pub mod capture;
pub mod compose;
pub mod config;
pub mod engine;
pub mod hotkey;
pub mod keys;
pub mod locate;
pub mod overlay;
pub mod platform;
pub mod strutil;

pub use compose::{build_frame, Opacity, OverlayFrame};
pub use config::{default_log, validate_config, EngineConfig, EngineError, LogLevel};
pub use engine::{Engine, EngineDirectives};
pub use hotkey::{
    default_hotkey, hotkey_to_string, parse_hotkey, parse_hotkey_str, text_to_name,
    validate_hotkey, HotkeyError,
};
pub use keys::{is_modifier, key_from_name, key_name, KeyName};
pub use locate::{diagnose, locate, AnchorPoint, MonitorInfo, MonitorRect, WindowBounds};
pub use platform::{hotkey_event_matches, parse_hotkey_macos, parse_hotkey_windows};
pub use overlay::{controller_step, overlay_position, ControllerStep, OverlayEvent, OverlayState};
