//! The closed key vocabulary.
//!
//! Hotkey combinations are built from this fixed set of named keys:
//! the modifier set, the letters, the digits, the function keys, the
//! arrows, a group of named editing keys, and the common punctuation
//! keys. Input outside this vocabulary is rejected by the parser and
//! ignored by the capture layer.

use vstd::prelude::*;

use crate::strutil::str_eq;

verus! {

/// One named key.
#[derive(Debug, Clone, Copy, PartialEq, Eq, Structural)]
pub enum KeyName {
    Alt,
    AltGr,
    ControlLeft,
    ControlRight,
    ShiftLeft,
    ShiftRight,
    MetaLeft,
    MetaRight,
    Escape,
    Tab,
    Backspace,
    Return,
    Space,
    Insert,
    Delete,
    Home,
    End,
    PageUp,
    PageDown,
    UpArrow,
    DownArrow,
    LeftArrow,
    RightArrow,
    F1,
    F2,
    F3,
    F4,
    F5,
    F6,
    F7,
    F8,
    F9,
    F10,
    F11,
    F12,
    Num0,
    Num1,
    Num2,
    Num3,
    Num4,
    Num5,
    Num6,
    Num7,
    Num8,
    Num9,
    KeyA,
    KeyB,
    KeyC,
    KeyD,
    KeyE,
    KeyF,
    KeyG,
    KeyH,
    KeyI,
    KeyJ,
    KeyK,
    KeyL,
    KeyM,
    KeyN,
    KeyO,
    KeyP,
    KeyQ,
    KeyR,
    KeyS,
    KeyT,
    KeyU,
    KeyV,
    KeyW,
    KeyX,
    KeyY,
    KeyZ,
    Slash,
    BackSlash,
    Comma,
    Dot,
    SemiColon,
    Quote,
    BackQuote,
    LeftBracket,
    RightBracket,
    Minus,
    Equal,
}

/// The canonical spelling of a key name.
pub open spec fn name_seq(k: KeyName) -> Seq<char> {
    match k {
        KeyName::Alt => "Alt"@,
        KeyName::AltGr => "AltGr"@,
        KeyName::ControlLeft => "ControlLeft"@,
        KeyName::ControlRight => "ControlRight"@,
        KeyName::ShiftLeft => "ShiftLeft"@,
        KeyName::ShiftRight => "ShiftRight"@,
        KeyName::MetaLeft => "MetaLeft"@,
        KeyName::MetaRight => "MetaRight"@,
        KeyName::Escape => "Escape"@,
        KeyName::Tab => "Tab"@,
        KeyName::Backspace => "Backspace"@,
        KeyName::Return => "Return"@,
        KeyName::Space => "Space"@,
        KeyName::Insert => "Insert"@,
        KeyName::Delete => "Delete"@,
        KeyName::Home => "Home"@,
        KeyName::End => "End"@,
        KeyName::PageUp => "PageUp"@,
        KeyName::PageDown => "PageDown"@,
        KeyName::UpArrow => "UpArrow"@,
        KeyName::DownArrow => "DownArrow"@,
        KeyName::LeftArrow => "LeftArrow"@,
        KeyName::RightArrow => "RightArrow"@,
        KeyName::F1 => "F1"@,
        KeyName::F2 => "F2"@,
        KeyName::F3 => "F3"@,
        KeyName::F4 => "F4"@,
        KeyName::F5 => "F5"@,
        KeyName::F6 => "F6"@,
        KeyName::F7 => "F7"@,
        KeyName::F8 => "F8"@,
        KeyName::F9 => "F9"@,
        KeyName::F10 => "F10"@,
        KeyName::F11 => "F11"@,
        KeyName::F12 => "F12"@,
        KeyName::Num0 => "Num0"@,
        KeyName::Num1 => "Num1"@,
        KeyName::Num2 => "Num2"@,
        KeyName::Num3 => "Num3"@,
        KeyName::Num4 => "Num4"@,
        KeyName::Num5 => "Num5"@,
        KeyName::Num6 => "Num6"@,
        KeyName::Num7 => "Num7"@,
        KeyName::Num8 => "Num8"@,
        KeyName::Num9 => "Num9"@,
        KeyName::KeyA => "KeyA"@,
        KeyName::KeyB => "KeyB"@,
        KeyName::KeyC => "KeyC"@,
        KeyName::KeyD => "KeyD"@,
        KeyName::KeyE => "KeyE"@,
        KeyName::KeyF => "KeyF"@,
        KeyName::KeyG => "KeyG"@,
        KeyName::KeyH => "KeyH"@,
        KeyName::KeyI => "KeyI"@,
        KeyName::KeyJ => "KeyJ"@,
        KeyName::KeyK => "KeyK"@,
        KeyName::KeyL => "KeyL"@,
        KeyName::KeyM => "KeyM"@,
        KeyName::KeyN => "KeyN"@,
        KeyName::KeyO => "KeyO"@,
        KeyName::KeyP => "KeyP"@,
        KeyName::KeyQ => "KeyQ"@,
        KeyName::KeyR => "KeyR"@,
        KeyName::KeyS => "KeyS"@,
        KeyName::KeyT => "KeyT"@,
        KeyName::KeyU => "KeyU"@,
        KeyName::KeyV => "KeyV"@,
        KeyName::KeyW => "KeyW"@,
        KeyName::KeyX => "KeyX"@,
        KeyName::KeyY => "KeyY"@,
        KeyName::KeyZ => "KeyZ"@,
        KeyName::Slash => "Slash"@,
        KeyName::BackSlash => "BackSlash"@,
        KeyName::Comma => "Comma"@,
        KeyName::Dot => "Dot"@,
        KeyName::SemiColon => "SemiColon"@,
        KeyName::Quote => "Quote"@,
        KeyName::BackQuote => "BackQuote"@,
        KeyName::LeftBracket => "LeftBracket"@,
        KeyName::RightBracket => "RightBracket"@,
        KeyName::Minus => "Minus"@,
        KeyName::Equal => "Equal"@,
    }
}

/// The canonical spelling of a key name.
pub fn key_name(k: KeyName) -> (r: &'static str)
    ensures
        r@ == name_seq(k),
{
    match k {
        KeyName::Alt => "Alt",
        KeyName::AltGr => "AltGr",
        KeyName::ControlLeft => "ControlLeft",
        KeyName::ControlRight => "ControlRight",
        KeyName::ShiftLeft => "ShiftLeft",
        KeyName::ShiftRight => "ShiftRight",
        KeyName::MetaLeft => "MetaLeft",
        KeyName::MetaRight => "MetaRight",
        KeyName::Escape => "Escape",
        KeyName::Tab => "Tab",
        KeyName::Backspace => "Backspace",
        KeyName::Return => "Return",
        KeyName::Space => "Space",
        KeyName::Insert => "Insert",
        KeyName::Delete => "Delete",
        KeyName::Home => "Home",
        KeyName::End => "End",
        KeyName::PageUp => "PageUp",
        KeyName::PageDown => "PageDown",
        KeyName::UpArrow => "UpArrow",
        KeyName::DownArrow => "DownArrow",
        KeyName::LeftArrow => "LeftArrow",
        KeyName::RightArrow => "RightArrow",
        KeyName::F1 => "F1",
        KeyName::F2 => "F2",
        KeyName::F3 => "F3",
        KeyName::F4 => "F4",
        KeyName::F5 => "F5",
        KeyName::F6 => "F6",
        KeyName::F7 => "F7",
        KeyName::F8 => "F8",
        KeyName::F9 => "F9",
        KeyName::F10 => "F10",
        KeyName::F11 => "F11",
        KeyName::F12 => "F12",
        KeyName::Num0 => "Num0",
        KeyName::Num1 => "Num1",
        KeyName::Num2 => "Num2",
        KeyName::Num3 => "Num3",
        KeyName::Num4 => "Num4",
        KeyName::Num5 => "Num5",
        KeyName::Num6 => "Num6",
        KeyName::Num7 => "Num7",
        KeyName::Num8 => "Num8",
        KeyName::Num9 => "Num9",
        KeyName::KeyA => "KeyA",
        KeyName::KeyB => "KeyB",
        KeyName::KeyC => "KeyC",
        KeyName::KeyD => "KeyD",
        KeyName::KeyE => "KeyE",
        KeyName::KeyF => "KeyF",
        KeyName::KeyG => "KeyG",
        KeyName::KeyH => "KeyH",
        KeyName::KeyI => "KeyI",
        KeyName::KeyJ => "KeyJ",
        KeyName::KeyK => "KeyK",
        KeyName::KeyL => "KeyL",
        KeyName::KeyM => "KeyM",
        KeyName::KeyN => "KeyN",
        KeyName::KeyO => "KeyO",
        KeyName::KeyP => "KeyP",
        KeyName::KeyQ => "KeyQ",
        KeyName::KeyR => "KeyR",
        KeyName::KeyS => "KeyS",
        KeyName::KeyT => "KeyT",
        KeyName::KeyU => "KeyU",
        KeyName::KeyV => "KeyV",
        KeyName::KeyW => "KeyW",
        KeyName::KeyX => "KeyX",
        KeyName::KeyY => "KeyY",
        KeyName::KeyZ => "KeyZ",
        KeyName::Slash => "Slash",
        KeyName::BackSlash => "BackSlash",
        KeyName::Comma => "Comma",
        KeyName::Dot => "Dot",
        KeyName::SemiColon => "SemiColon",
        KeyName::Quote => "Quote",
        KeyName::BackQuote => "BackQuote",
        KeyName::LeftBracket => "LeftBracket",
        KeyName::RightBracket => "RightBracket",
        KeyName::Minus => "Minus",
        KeyName::Equal => "Equal",
    }
}

/// The key spelled by a string, if any; spellings are exact.
pub open spec fn key_of_name(s: Seq<char>) -> Option<KeyName> {
    if s == "Alt"@ {
        Some(KeyName::Alt)
    } else if s == "AltGr"@ {
        Some(KeyName::AltGr)
    } else if s == "ControlLeft"@ {
        Some(KeyName::ControlLeft)
    } else if s == "ControlRight"@ {
        Some(KeyName::ControlRight)
    } else if s == "ShiftLeft"@ {
        Some(KeyName::ShiftLeft)
    } else if s == "ShiftRight"@ {
        Some(KeyName::ShiftRight)
    } else if s == "MetaLeft"@ {
        Some(KeyName::MetaLeft)
    } else if s == "MetaRight"@ {
        Some(KeyName::MetaRight)
    } else if s == "Escape"@ {
        Some(KeyName::Escape)
    } else if s == "Tab"@ {
        Some(KeyName::Tab)
    } else if s == "Backspace"@ {
        Some(KeyName::Backspace)
    } else if s == "Return"@ {
        Some(KeyName::Return)
    } else if s == "Space"@ {
        Some(KeyName::Space)
    } else if s == "Insert"@ {
        Some(KeyName::Insert)
    } else if s == "Delete"@ {
        Some(KeyName::Delete)
    } else if s == "Home"@ {
        Some(KeyName::Home)
    } else if s == "End"@ {
        Some(KeyName::End)
    } else if s == "PageUp"@ {
        Some(KeyName::PageUp)
    } else if s == "PageDown"@ {
        Some(KeyName::PageDown)
    } else if s == "UpArrow"@ {
        Some(KeyName::UpArrow)
    } else if s == "DownArrow"@ {
        Some(KeyName::DownArrow)
    } else if s == "LeftArrow"@ {
        Some(KeyName::LeftArrow)
    } else if s == "RightArrow"@ {
        Some(KeyName::RightArrow)
    } else if s == "F1"@ {
        Some(KeyName::F1)
    } else if s == "F2"@ {
        Some(KeyName::F2)
    } else if s == "F3"@ {
        Some(KeyName::F3)
    } else if s == "F4"@ {
        Some(KeyName::F4)
    } else if s == "F5"@ {
        Some(KeyName::F5)
    } else if s == "F6"@ {
        Some(KeyName::F6)
    } else if s == "F7"@ {
        Some(KeyName::F7)
    } else if s == "F8"@ {
        Some(KeyName::F8)
    } else if s == "F9"@ {
        Some(KeyName::F9)
    } else if s == "F10"@ {
        Some(KeyName::F10)
    } else if s == "F11"@ {
        Some(KeyName::F11)
    } else if s == "F12"@ {
        Some(KeyName::F12)
    } else if s == "Num0"@ {
        Some(KeyName::Num0)
    } else if s == "Num1"@ {
        Some(KeyName::Num1)
    } else if s == "Num2"@ {
        Some(KeyName::Num2)
    } else if s == "Num3"@ {
        Some(KeyName::Num3)
    } else if s == "Num4"@ {
        Some(KeyName::Num4)
    } else if s == "Num5"@ {
        Some(KeyName::Num5)
    } else if s == "Num6"@ {
        Some(KeyName::Num6)
    } else if s == "Num7"@ {
        Some(KeyName::Num7)
    } else if s == "Num8"@ {
        Some(KeyName::Num8)
    } else if s == "Num9"@ {
        Some(KeyName::Num9)
    } else if s == "KeyA"@ {
        Some(KeyName::KeyA)
    } else if s == "KeyB"@ {
        Some(KeyName::KeyB)
    } else if s == "KeyC"@ {
        Some(KeyName::KeyC)
    } else if s == "KeyD"@ {
        Some(KeyName::KeyD)
    } else if s == "KeyE"@ {
        Some(KeyName::KeyE)
    } else if s == "KeyF"@ {
        Some(KeyName::KeyF)
    } else if s == "KeyG"@ {
        Some(KeyName::KeyG)
    } else if s == "KeyH"@ {
        Some(KeyName::KeyH)
    } else if s == "KeyI"@ {
        Some(KeyName::KeyI)
    } else if s == "KeyJ"@ {
        Some(KeyName::KeyJ)
    } else if s == "KeyK"@ {
        Some(KeyName::KeyK)
    } else if s == "KeyL"@ {
        Some(KeyName::KeyL)
    } else if s == "KeyM"@ {
        Some(KeyName::KeyM)
    } else if s == "KeyN"@ {
        Some(KeyName::KeyN)
    } else if s == "KeyO"@ {
        Some(KeyName::KeyO)
    } else if s == "KeyP"@ {
        Some(KeyName::KeyP)
    } else if s == "KeyQ"@ {
        Some(KeyName::KeyQ)
    } else if s == "KeyR"@ {
        Some(KeyName::KeyR)
    } else if s == "KeyS"@ {
        Some(KeyName::KeyS)
    } else if s == "KeyT"@ {
        Some(KeyName::KeyT)
    } else if s == "KeyU"@ {
        Some(KeyName::KeyU)
    } else if s == "KeyV"@ {
        Some(KeyName::KeyV)
    } else if s == "KeyW"@ {
        Some(KeyName::KeyW)
    } else if s == "KeyX"@ {
        Some(KeyName::KeyX)
    } else if s == "KeyY"@ {
        Some(KeyName::KeyY)
    } else if s == "KeyZ"@ {
        Some(KeyName::KeyZ)
    } else if s == "Slash"@ {
        Some(KeyName::Slash)
    } else if s == "BackSlash"@ {
        Some(KeyName::BackSlash)
    } else if s == "Comma"@ {
        Some(KeyName::Comma)
    } else if s == "Dot"@ {
        Some(KeyName::Dot)
    } else if s == "SemiColon"@ {
        Some(KeyName::SemiColon)
    } else if s == "Quote"@ {
        Some(KeyName::Quote)
    } else if s == "BackQuote"@ {
        Some(KeyName::BackQuote)
    } else if s == "LeftBracket"@ {
        Some(KeyName::LeftBracket)
    } else if s == "RightBracket"@ {
        Some(KeyName::RightBracket)
    } else if s == "Minus"@ {
        Some(KeyName::Minus)
    } else if s == "Equal"@ {
        Some(KeyName::Equal)
    } else {
        None
    }
}

/// Parse the canonical spelling of a key; unrecognized names give
/// nothing.
pub fn key_from_name(s: &str) -> (r: Option<KeyName>)
    ensures
        r == key_of_name(s@),
{
    if str_eq(s, "Alt") {
        Some(KeyName::Alt)
    } else if str_eq(s, "AltGr") {
        Some(KeyName::AltGr)
    } else if str_eq(s, "ControlLeft") {
        Some(KeyName::ControlLeft)
    } else if str_eq(s, "ControlRight") {
        Some(KeyName::ControlRight)
    } else if str_eq(s, "ShiftLeft") {
        Some(KeyName::ShiftLeft)
    } else if str_eq(s, "ShiftRight") {
        Some(KeyName::ShiftRight)
    } else if str_eq(s, "MetaLeft") {
        Some(KeyName::MetaLeft)
    } else if str_eq(s, "MetaRight") {
        Some(KeyName::MetaRight)
    } else if str_eq(s, "Escape") {
        Some(KeyName::Escape)
    } else if str_eq(s, "Tab") {
        Some(KeyName::Tab)
    } else if str_eq(s, "Backspace") {
        Some(KeyName::Backspace)
    } else if str_eq(s, "Return") {
        Some(KeyName::Return)
    } else if str_eq(s, "Space") {
        Some(KeyName::Space)
    } else if str_eq(s, "Insert") {
        Some(KeyName::Insert)
    } else if str_eq(s, "Delete") {
        Some(KeyName::Delete)
    } else if str_eq(s, "Home") {
        Some(KeyName::Home)
    } else if str_eq(s, "End") {
        Some(KeyName::End)
    } else if str_eq(s, "PageUp") {
        Some(KeyName::PageUp)
    } else if str_eq(s, "PageDown") {
        Some(KeyName::PageDown)
    } else if str_eq(s, "UpArrow") {
        Some(KeyName::UpArrow)
    } else if str_eq(s, "DownArrow") {
        Some(KeyName::DownArrow)
    } else if str_eq(s, "LeftArrow") {
        Some(KeyName::LeftArrow)
    } else if str_eq(s, "RightArrow") {
        Some(KeyName::RightArrow)
    } else if str_eq(s, "F1") {
        Some(KeyName::F1)
    } else if str_eq(s, "F2") {
        Some(KeyName::F2)
    } else if str_eq(s, "F3") {
        Some(KeyName::F3)
    } else if str_eq(s, "F4") {
        Some(KeyName::F4)
    } else if str_eq(s, "F5") {
        Some(KeyName::F5)
    } else if str_eq(s, "F6") {
        Some(KeyName::F6)
    } else if str_eq(s, "F7") {
        Some(KeyName::F7)
    } else if str_eq(s, "F8") {
        Some(KeyName::F8)
    } else if str_eq(s, "F9") {
        Some(KeyName::F9)
    } else if str_eq(s, "F10") {
        Some(KeyName::F10)
    } else if str_eq(s, "F11") {
        Some(KeyName::F11)
    } else if str_eq(s, "F12") {
        Some(KeyName::F12)
    } else if str_eq(s, "Num0") {
        Some(KeyName::Num0)
    } else if str_eq(s, "Num1") {
        Some(KeyName::Num1)
    } else if str_eq(s, "Num2") {
        Some(KeyName::Num2)
    } else if str_eq(s, "Num3") {
        Some(KeyName::Num3)
    } else if str_eq(s, "Num4") {
        Some(KeyName::Num4)
    } else if str_eq(s, "Num5") {
        Some(KeyName::Num5)
    } else if str_eq(s, "Num6") {
        Some(KeyName::Num6)
    } else if str_eq(s, "Num7") {
        Some(KeyName::Num7)
    } else if str_eq(s, "Num8") {
        Some(KeyName::Num8)
    } else if str_eq(s, "Num9") {
        Some(KeyName::Num9)
    } else if str_eq(s, "KeyA") {
        Some(KeyName::KeyA)
    } else if str_eq(s, "KeyB") {
        Some(KeyName::KeyB)
    } else if str_eq(s, "KeyC") {
        Some(KeyName::KeyC)
    } else if str_eq(s, "KeyD") {
        Some(KeyName::KeyD)
    } else if str_eq(s, "KeyE") {
        Some(KeyName::KeyE)
    } else if str_eq(s, "KeyF") {
        Some(KeyName::KeyF)
    } else if str_eq(s, "KeyG") {
        Some(KeyName::KeyG)
    } else if str_eq(s, "KeyH") {
        Some(KeyName::KeyH)
    } else if str_eq(s, "KeyI") {
        Some(KeyName::KeyI)
    } else if str_eq(s, "KeyJ") {
        Some(KeyName::KeyJ)
    } else if str_eq(s, "KeyK") {
        Some(KeyName::KeyK)
    } else if str_eq(s, "KeyL") {
        Some(KeyName::KeyL)
    } else if str_eq(s, "KeyM") {
        Some(KeyName::KeyM)
    } else if str_eq(s, "KeyN") {
        Some(KeyName::KeyN)
    } else if str_eq(s, "KeyO") {
        Some(KeyName::KeyO)
    } else if str_eq(s, "KeyP") {
        Some(KeyName::KeyP)
    } else if str_eq(s, "KeyQ") {
        Some(KeyName::KeyQ)
    } else if str_eq(s, "KeyR") {
        Some(KeyName::KeyR)
    } else if str_eq(s, "KeyS") {
        Some(KeyName::KeyS)
    } else if str_eq(s, "KeyT") {
        Some(KeyName::KeyT)
    } else if str_eq(s, "KeyU") {
        Some(KeyName::KeyU)
    } else if str_eq(s, "KeyV") {
        Some(KeyName::KeyV)
    } else if str_eq(s, "KeyW") {
        Some(KeyName::KeyW)
    } else if str_eq(s, "KeyX") {
        Some(KeyName::KeyX)
    } else if str_eq(s, "KeyY") {
        Some(KeyName::KeyY)
    } else if str_eq(s, "KeyZ") {
        Some(KeyName::KeyZ)
    } else if str_eq(s, "Slash") {
        Some(KeyName::Slash)
    } else if str_eq(s, "BackSlash") {
        Some(KeyName::BackSlash)
    } else if str_eq(s, "Comma") {
        Some(KeyName::Comma)
    } else if str_eq(s, "Dot") {
        Some(KeyName::Dot)
    } else if str_eq(s, "SemiColon") {
        Some(KeyName::SemiColon)
    } else if str_eq(s, "Quote") {
        Some(KeyName::Quote)
    } else if str_eq(s, "BackQuote") {
        Some(KeyName::BackQuote)
    } else if str_eq(s, "LeftBracket") {
        Some(KeyName::LeftBracket)
    } else if str_eq(s, "RightBracket") {
        Some(KeyName::RightBracket)
    } else if str_eq(s, "Minus") {
        Some(KeyName::Minus)
    } else if str_eq(s, "Equal") {
        Some(KeyName::Equal)
    } else {
        None
    }
}

/// Whether a key belongs to the modifier set: control, shift, alt or
/// meta, in any left or right variant.
pub open spec fn spec_is_modifier(k: KeyName) -> bool {
    match k {
        KeyName::Alt | KeyName::AltGr | KeyName::ControlLeft | KeyName::ControlRight | KeyName::MetaLeft | KeyName::MetaRight | KeyName::ShiftLeft | KeyName::ShiftRight => true,
        _ => false,
    }
}

/// Whether a key belongs to the modifier set.
pub fn is_modifier(k: KeyName) -> (r: bool)
    ensures
        r == spec_is_modifier(k),
{
    match k {
        KeyName::Alt | KeyName::AltGr | KeyName::ControlLeft | KeyName::ControlRight | KeyName::MetaLeft | KeyName::MetaRight | KeyName::ShiftLeft | KeyName::ShiftRight => true,
        _ => false,
    }
}

} // verus!
