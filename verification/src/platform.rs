//! Platform hotkey encodings.
//!
//! Registering a global hotkey with the operating system takes the
//! combination in the platform's own terms: a modifier bit mask and
//! one key code. These functions compute that encoding from the
//! configured key names; the registration call itself is platform
//! plumbing and stays outside. Unrecognized names contribute
//! nothing.

use vstd::prelude::*;

use crate::strutil::{ascii_case_eq, str_eq_ignore_ascii_case};

verus! {

/// The registration modifier bit for the alt key, as the platform
/// documents it.
pub const WIN_MOD_ALT: u32 = 1;

/// The registration modifier bit for the control key.
pub const WIN_MOD_CONTROL: u32 = 2;

/// The registration modifier bit for the shift key.
pub const WIN_MOD_SHIFT: u32 = 4;

/// The registration modifier bit for the system key.
pub const WIN_MOD_WIN: u32 = 8;

/// The virtual key code of the slash key.
pub const WIN_VK_OEM_2: u32 = 191;

/// The event flag for the alternate (option) key, as the platform
/// documents it.
pub const MAC_FLAG_ALTERNATE: u64 = 0x0008_0000;

/// The event flag for the control key.
pub const MAC_FLAG_CONTROL: u64 = 0x0004_0000;

/// The event flag for the shift key.
pub const MAC_FLAG_SHIFT: u64 = 0x0002_0000;

/// The event flag for the command key.
pub const MAC_FLAG_COMMAND: u64 = 0x0010_0000;

/// The hardware key code of the slash key.
pub const MAC_KEY_SLASH: u64 = 0x2C;

/// Whether the name, ignoring letter case, is one of the spellings
/// of the alt modifier.
pub open spec fn names_alt(s: Seq<char>) -> bool {
    ascii_case_eq(s, "alt"@) || ascii_case_eq(s, "option"@) || ascii_case_eq(s, "opt"@)
}

/// Whether the name, ignoring letter case, is one of the spellings
/// of the control modifier.
pub open spec fn names_control(s: Seq<char>) -> bool {
    ascii_case_eq(s, "ctrl"@) || ascii_case_eq(s, "control"@) || ascii_case_eq(s, "controlleft"@)
        || ascii_case_eq(s, "controlright"@)
}

/// Whether the name, ignoring letter case, is one of the spellings
/// of the shift modifier.
pub open spec fn names_shift(s: Seq<char>) -> bool {
    ascii_case_eq(s, "shift"@) || ascii_case_eq(s, "shiftleft"@) || ascii_case_eq(s, "shiftright"@)
}

/// Whether the name, ignoring letter case, is one of the spellings
/// of the meta modifier.
pub open spec fn names_meta(s: Seq<char>) -> bool {
    ascii_case_eq(s, "meta"@) || ascii_case_eq(s, "metaleft"@) || ascii_case_eq(s, "metaright"@)
        || ascii_case_eq(s, "win"@) || ascii_case_eq(s, "command"@) || ascii_case_eq(s, "cmd"@)
}

/// The upper-case code point of an ASCII letter, given either case.
pub open spec fn upper_code(c: char) -> int {
    if 97 <= c as int <= 122 {
        c as int - 32
    } else {
        c as int
    }
}

/// Whether the character is an ASCII letter.
pub open spec fn is_ascii_letter(c: char) -> bool {
    65 <= c as int <= 90 || 97 <= c as int <= 122
}

/// Whether the character is an ASCII digit.
pub open spec fn is_ascii_digit_char(c: char) -> bool {
    48 <= c as int <= 57
}

/// The modifier bit one name contributes on the first platform
/// flavour: a bit per modifier class, nothing for other names.
pub open spec fn win_mod_bit(s: Seq<char>) -> u32 {
    if names_alt(s) {
        WIN_MOD_ALT
    } else if names_control(s) {
        WIN_MOD_CONTROL
    } else if names_shift(s) {
        WIN_MOD_SHIFT
    } else if names_meta(s) {
        WIN_MOD_WIN
    } else {
        0
    }
}

/// The virtual key code one name contributes: the slash key, a
/// letter as its upper-case code point, a digit as its code point;
/// zero for every other name.
pub open spec fn win_vk(s: Seq<char>) -> u32 {
    if win_mod_bit(s) != 0 {
        0
    } else if ascii_case_eq(s, "slash"@) {
        WIN_VK_OEM_2
    } else if s.len() == 1 && is_ascii_letter(s[0]) {
        upper_code(s[0]) as u32
    } else if s.len() == 1 && is_ascii_digit_char(s[0]) {
        s[0] as u32
    } else {
        0
    }
}

/// The whole encoding: the modifier bits of every name combined,
/// and the key code of the last name that carries one.
pub open spec fn win_encoding(names: Seq<Seq<char>>) -> (u32, u32)
    decreases names.len(),
{
    if names.len() == 0 {
        (0u32, 0u32)
    } else {
        let rest = win_encoding(names.drop_last());
        let vk = win_vk(names.last());
        (rest.0 | win_mod_bit(names.last()), if vk != 0 { vk } else { rest.1 })
    }
}

/// The event flag one name contributes on the second platform
/// flavour.
pub open spec fn mac_flag(s: Seq<char>) -> u64 {
    if names_alt(s) {
        MAC_FLAG_ALTERNATE
    } else if names_control(s) {
        MAC_FLAG_CONTROL
    } else if names_shift(s) {
        MAC_FLAG_SHIFT
    } else if names_meta(s) {
        MAC_FLAG_COMMAND
    } else {
        0
    }
}

/// The hardware key code of an upper-case letter code point.
pub open spec fn mac_letter_code(u: int) -> u64 {
    if u == 65 {
        0x00
    } else if u == 66 {
        0x0B
    } else if u == 67 {
        0x08
    } else if u == 68 {
        0x02
    } else if u == 69 {
        0x0E
    } else if u == 70 {
        0x03
    } else if u == 71 {
        0x05
    } else if u == 72 {
        0x04
    } else if u == 73 {
        0x22
    } else if u == 74 {
        0x26
    } else if u == 75 {
        0x28
    } else if u == 76 {
        0x25
    } else if u == 77 {
        0x2E
    } else if u == 78 {
        0x2D
    } else if u == 79 {
        0x1F
    } else if u == 80 {
        0x23
    } else if u == 81 {
        0x0C
    } else if u == 82 {
        0x0F
    } else if u == 83 {
        0x01
    } else if u == 84 {
        0x11
    } else if u == 85 {
        0x20
    } else if u == 86 {
        0x09
    } else if u == 87 {
        0x0D
    } else if u == 88 {
        0x07
    } else if u == 89 {
        0x10
    } else if u == 90 {
        0x06
    } else {
        0
    }
}

/// The hardware key code of a digit code point.
pub open spec fn mac_digit_code(u: int) -> u64 {
    if u == 48 {
        0x1D
    } else if u == 49 {
        0x12
    } else if u == 50 {
        0x13
    } else if u == 51 {
        0x14
    } else if u == 52 {
        0x15
    } else if u == 53 {
        0x17
    } else if u == 54 {
        0x16
    } else if u == 55 {
        0x1A
    } else if u == 56 {
        0x1C
    } else if u == 57 {
        0x19
    } else {
        0
    }
}

/// The hardware key code one name contributes: the slash key, a
/// letter or a digit by the tables above; zero for every other
/// name.
pub open spec fn mac_key(s: Seq<char>) -> u64 {
    if mac_flag(s) != 0 {
        0
    } else if ascii_case_eq(s, "slash"@) {
        MAC_KEY_SLASH
    } else if s.len() == 1 && is_ascii_letter(s[0]) {
        mac_letter_code(upper_code(s[0]))
    } else if s.len() == 1 && is_ascii_digit_char(s[0]) {
        mac_digit_code(s[0] as int)
    } else {
        0
    }
}

/// The whole encoding: the event flags of every name combined, and
/// the key code of the last name that carries one.
pub open spec fn mac_encoding(names: Seq<Seq<char>>) -> (u64, u64)
    decreases names.len(),
{
    if names.len() == 0 {
        (0u64, 0u64)
    } else {
        let rest = mac_encoding(names.drop_last());
        let key = mac_key(names.last());
        (rest.0 | mac_flag(names.last()), if key != 0 { key } else { rest.1 })
    }
}

fn mod_class(s: &str) -> (r: u32)
    ensures
        r == win_mod_bit(s@),
{
    if str_eq_ignore_ascii_case(s, "alt") || str_eq_ignore_ascii_case(s, "option")
        || str_eq_ignore_ascii_case(s, "opt") {
        WIN_MOD_ALT
    } else if str_eq_ignore_ascii_case(s, "ctrl") || str_eq_ignore_ascii_case(s, "control")
        || str_eq_ignore_ascii_case(s, "controlleft") || str_eq_ignore_ascii_case(s, "controlright") {
        WIN_MOD_CONTROL
    } else if str_eq_ignore_ascii_case(s, "shift") || str_eq_ignore_ascii_case(s, "shiftleft")
        || str_eq_ignore_ascii_case(s, "shiftright") {
        WIN_MOD_SHIFT
    } else if str_eq_ignore_ascii_case(s, "meta") || str_eq_ignore_ascii_case(s, "metaleft")
        || str_eq_ignore_ascii_case(s, "metaright") || str_eq_ignore_ascii_case(s, "win")
        || str_eq_ignore_ascii_case(s, "command") || str_eq_ignore_ascii_case(s, "cmd") {
        WIN_MOD_WIN
    } else {
        0
    }
}

fn single_char(s: &str) -> (r: Option<char>)
    ensures
        match r {
            Some(c) => s@.len() == 1 && c == s@[0],
            None => s@.len() != 1,
        },
{
    if s.unicode_len() == 1 {
        Some(s.get_char(0))
    } else {
        None
    }
}

fn win_vk_of(s: &str) -> (r: u32)
    ensures
        r == win_vk(s@),
{
    if mod_class(s) != 0 {
        return 0;
    }
    if str_eq_ignore_ascii_case(s, "slash") {
        return WIN_VK_OEM_2;
    }
    match single_char(s) {
        Some(c) => letter_or_digit_code(c),
        None => 0,
    }
}

fn letter_or_digit_code(c: char) -> (r: u32)
    ensures
        is_ascii_letter(c) ==> r as int == upper_code(c),
        is_ascii_digit_char(c) ==> r as int == c as int,
        !is_ascii_letter(c) && !is_ascii_digit_char(c) ==> r == 0,
{
    let u = c as u32;
    if 97 <= u && u <= 122 {
        u - 32
    } else if 65 <= u && u <= 90 {
        u
    } else if 48 <= u && u <= 57 {
        u
    } else {
        0
    }
}

/// Encode a combination for global hotkey registration on the
/// platform that takes a modifier mask and a virtual key code.
pub fn parse_hotkey_windows(keys: &Vec<String>) -> (r: (u32, u32))
    ensures
        r == win_encoding(keys@.map_values(|s: String| s@)),
{
    let ghost mapped = keys@.map_values(|s: String| s@);
    let mut mods: u32 = 0;
    let mut vk: u32 = 0;
    let mut i: usize = 0;
    while i < keys.len()
        invariant
            mapped == keys@.map_values(|s: String| s@),
            mapped.len() == keys@.len(),
            i <= keys@.len(),
            (mods, vk) == win_encoding(mapped.take(i as int)),
        decreases keys@.len() - i,
    {
        let mb = mod_class(keys[i].as_str());
        let v = win_vk_of(keys[i].as_str());
        mods = mods | mb;
        if v != 0 {
            vk = v;
        }
        proof {
            assert(mapped.take(i + 1).drop_last() =~= mapped.take(i as int));
            assert(mapped.take(i + 1).last() == mapped[i as int]);
        }
        i = i + 1;
    }
    proof {
        assert(mapped.take(keys@.len() as int) =~= mapped);
    }
    (mods, vk)
}

fn mac_flag_of(s: &str) -> (r: u64)
    ensures
        r == mac_flag(s@),
{
    let c = mod_class(s);
    if c == WIN_MOD_ALT {
        MAC_FLAG_ALTERNATE
    } else if c == WIN_MOD_CONTROL {
        MAC_FLAG_CONTROL
    } else if c == WIN_MOD_SHIFT {
        MAC_FLAG_SHIFT
    } else if c == WIN_MOD_WIN {
        MAC_FLAG_COMMAND
    } else {
        0
    }
}

fn mac_letter_of(u: u32) -> (r: u64)
    ensures
        r == mac_letter_code(u as int),
{
    if u == 65 {
        0x00
    } else if u == 66 {
        0x0B
    } else if u == 67 {
        0x08
    } else if u == 68 {
        0x02
    } else if u == 69 {
        0x0E
    } else if u == 70 {
        0x03
    } else if u == 71 {
        0x05
    } else if u == 72 {
        0x04
    } else if u == 73 {
        0x22
    } else if u == 74 {
        0x26
    } else if u == 75 {
        0x28
    } else if u == 76 {
        0x25
    } else if u == 77 {
        0x2E
    } else if u == 78 {
        0x2D
    } else if u == 79 {
        0x1F
    } else if u == 80 {
        0x23
    } else if u == 81 {
        0x0C
    } else if u == 82 {
        0x0F
    } else if u == 83 {
        0x01
    } else if u == 84 {
        0x11
    } else if u == 85 {
        0x20
    } else if u == 86 {
        0x09
    } else if u == 87 {
        0x0D
    } else if u == 88 {
        0x07
    } else if u == 89 {
        0x10
    } else if u == 90 {
        0x06
    } else {
        0
    }
}

fn mac_digit_of(u: u32) -> (r: u64)
    ensures
        r == mac_digit_code(u as int),
{
    if u == 48 {
        0x1D
    } else if u == 49 {
        0x12
    } else if u == 50 {
        0x13
    } else if u == 51 {
        0x14
    } else if u == 52 {
        0x15
    } else if u == 53 {
        0x17
    } else if u == 54 {
        0x16
    } else if u == 55 {
        0x1A
    } else if u == 56 {
        0x1C
    } else if u == 57 {
        0x19
    } else {
        0
    }
}

fn mac_key_of(s: &str) -> (r: u64)
    ensures
        r == mac_key(s@),
{
    if mac_flag_of(s) != 0 {
        return 0;
    }
    if str_eq_ignore_ascii_case(s, "slash") {
        return MAC_KEY_SLASH;
    }
    match single_char(s) {
        Some(c) => mac_char_code(c),
        None => 0,
    }
}

fn mac_char_code(c: char) -> (r: u64)
    ensures
        is_ascii_letter(c) ==> r == mac_letter_code(upper_code(c)),
        is_ascii_digit_char(c) ==> r == mac_digit_code(c as int),
        !is_ascii_letter(c) && !is_ascii_digit_char(c) ==> r == 0,
{
    let u = c as u32;
    if 97 <= u && u <= 122 {
        mac_letter_of(u - 32)
    } else if 65 <= u && u <= 90 {
        mac_letter_of(u)
    } else if 48 <= u && u <= 57 {
        mac_digit_of(u)
    } else {
        0
    }
}

/// Encode a combination for global hotkey registration on the
/// platform that takes event flags and a hardware key code.
pub fn parse_hotkey_macos(keys: &Vec<String>) -> (r: (u64, u64))
    ensures
        r == mac_encoding(keys@.map_values(|s: String| s@)),
{
    let ghost mapped = keys@.map_values(|s: String| s@);
    let mut flags: u64 = 0;
    let mut key: u64 = 0;
    let mut i: usize = 0;
    while i < keys.len()
        invariant
            mapped == keys@.map_values(|s: String| s@),
            mapped.len() == keys@.len(),
            i <= keys@.len(),
            (flags, key) == mac_encoding(mapped.take(i as int)),
        decreases keys@.len() - i,
    {
        let fb = mac_flag_of(keys[i].as_str());
        let kb = mac_key_of(keys[i].as_str());
        flags = flags | fb;
        if kb != 0 {
            key = kb;
        }
        proof {
            assert(mapped.take(i + 1).drop_last() =~= mapped.take(i as int));
            assert(mapped.take(i + 1).last() == mapped[i as int]);
        }
        i = i + 1;
    }
    proof {
        assert(mapped.take(keys@.len() as int) =~= mapped);
    }
    (flags, key)
}

/// Whether one keyboard event, as the platform hook reports it,
/// triggers the registered combination: every required flag is set
/// and the key code is the required one. The hook's handler forwards
/// a toggle exactly when this holds.
pub fn hotkey_event_matches(flags: u64, key: u64, combo_flags: u64, combo_key: u64) -> (r: bool)
    ensures
        r == ((flags & combo_flags) == combo_flags && key == combo_key),
{
    (flags & combo_flags) == combo_flags && key == combo_key
}

} // verus!
