//! The engine's configuration snapshot and its validation.
//!
//! The snapshot arrives from the outside collaborators (command line,
//! settings file) already clamped to sensible ranges; the engine still
//! fails fast, with a descriptive error, on a combination that breaks
//! the hotkey invariant or on empty dimensions.

use vstd::prelude::*;

use crate::compose::Opacity;
use crate::hotkey::{has_modifier, has_non_modifier, validate_hotkey, HotkeyError};
use crate::keys::KeyName;

verus! {

/// The immutable configuration the engine starts from.
#[derive(Debug)]
pub struct EngineConfig {
    pub width: u32,
    pub height: u32,
    pub opacity: Opacity,
    pub invert: bool,
    pub persist: bool,
    pub hotkey: Vec<KeyName>,
}

impl EngineConfig {
    /// The opacity is a well-formed fraction.
    pub open spec fn wf(self) -> bool {
        self.opacity.wf()
    }

    /// The configuration passes validation: positive dimensions and a
    /// valid combination.
    pub open spec fn valid(self) -> bool {
        &&& self.width >= 1
        &&& self.height >= 1
        &&& has_modifier(self.hotkey@)
        &&& has_non_modifier(self.hotkey@)
    }
}

/// Why the engine refused to start.
#[derive(Debug, Clone, Copy, PartialEq, Eq, Structural)]
pub enum EngineError {
    /// A dimension is zero.
    InvalidDimensions,
    /// The combination breaks the hotkey invariant.
    InvalidHotkey(HotkeyError),
}

impl EngineError {
    /// The reason, in words.
    pub open spec fn spec_message(self) -> Seq<char> {
        match self {
            EngineError::InvalidDimensions => "overlay dimensions must be positive"@,
            EngineError::InvalidHotkey(e) => e.spec_message(),
        }
    }

    /// The reason, in words.
    pub fn message(&self) -> (r: String)
        ensures
            r@ == self.spec_message(),
    {
        match self {
            EngineError::InvalidDimensions => "overlay dimensions must be positive".to_owned(),
            EngineError::InvalidHotkey(e) => e.message(),
        }
    }
}

/// Check a configuration snapshot: dimensions first, then the hotkey
/// invariant. Validation succeeds exactly on valid configurations.
pub fn validate_config(cfg: &EngineConfig) -> (r: Result<(), EngineError>)
    ensures
        r is Ok <==> cfg.valid(),
        (cfg.width == 0 || cfg.height == 0) ==> r == Err::<(), EngineError>(
            EngineError::InvalidDimensions,
        ),
        cfg.width >= 1 && cfg.height >= 1 && !(has_modifier(cfg.hotkey@) && has_non_modifier(
            cfg.hotkey@,
        )) ==> (r matches Err(e) && e matches EngineError::InvalidHotkey(he) && Err::<
            (),
            HotkeyError,
        >(he) == validate_hotkey_outcome(cfg.hotkey@)),
{
    if cfg.width == 0 || cfg.height == 0 {
        return Err(EngineError::InvalidDimensions);
    }
    match validate_hotkey(&cfg.hotkey) {
        Ok(()) => Ok(()),
        Err(e) => Err(EngineError::InvalidHotkey(e)),
    }
}

/// What hotkey validation answers for a combination.
pub open spec fn validate_hotkey_outcome(ks: Seq<KeyName>) -> Result<(), HotkeyError> {
    if !has_modifier(ks) {
        Err(HotkeyError::NoModifier)
    } else if !has_non_modifier(ks) {
        Err(HotkeyError::NoNonModifier)
    } else {
        Ok(())
    }
}

/// How much the engine logs.
#[derive(Debug, Clone, Copy, PartialEq, Eq, Structural)]
pub enum LogLevel {
    Error,
    Warn,
    Info,
    Debug,
    Trace,
}

/// The default log level.
pub fn default_log() -> (r: LogLevel)
    ensures
        r == LogLevel::Info,
{
    LogLevel::Info
}

} // verus!
