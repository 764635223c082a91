//! Hotkey combinations: parsing from configuration text, validation,
//! and rendering back to text.
//!
//! A combination is a list of named keys. A valid combination holds at
//! least one modifier key and at least one non-modifier key; anything
//! else is refused at configuration time with a specific reason.

use vstd::prelude::*;

use crate::keys::{key_from_name, key_name, key_of_name, name_seq, spec_is_modifier, is_modifier, KeyName};
use crate::strutil::{ascii_case_eq, split_plus, split_plus_str, str_eq, str_eq_ignore_ascii_case, trim_str, trimmed};

verus! {

/// Why a hotkey combination was refused.
#[derive(Debug, Clone, Copy, PartialEq, Eq, Structural)]
pub enum HotkeyError {
    /// A key name was outside the vocabulary; the index points at the
    /// offending entry.
    UnknownKey { index: usize },
    /// The combination holds no modifier key.
    NoModifier,
    /// The combination holds only modifier keys.
    NoNonModifier,
}

impl HotkeyError {
    /// The reason, in words.
    pub open spec fn spec_message(self) -> Seq<char> {
        match self {
            HotkeyError::UnknownKey { .. } => "invalid key name"@,
            HotkeyError::NoModifier => "hotkey must contain at least one modifier key"@,
            HotkeyError::NoNonModifier => "hotkey must contain at least one non-modifier key"@,
        }
    }

    /// The reason, in words.
    pub fn message(&self) -> (r: String)
        ensures
            r@ == self.spec_message(),
    {
        match self {
            HotkeyError::UnknownKey { .. } => "invalid key name".to_owned(),
            HotkeyError::NoModifier => "hotkey must contain at least one modifier key".to_owned(),
            HotkeyError::NoNonModifier => "hotkey must contain at least one non-modifier key".to_owned(),
        }
    }
}

/// The key meant by one configuration entry: the aliases for the alt
/// and the meta key are accepted in any letter case, every other
/// spelling must be canonical.
pub open spec fn parse_name(s: Seq<char>) -> Option<KeyName> {
    if ascii_case_eq(s, "option"@) || ascii_case_eq(s, "opt"@) {
        Some(KeyName::Alt)
    } else if ascii_case_eq(s, "command"@) || ascii_case_eq(s, "cmd"@) {
        Some(KeyName::MetaLeft)
    } else {
        key_of_name(s)
    }
}

fn parse_one_name(s: &str) -> (r: Option<KeyName>)
    ensures
        r == parse_name(s@),
{
    if str_eq_ignore_ascii_case(s, "option") || str_eq_ignore_ascii_case(s, "opt") {
        Some(KeyName::Alt)
    } else if str_eq_ignore_ascii_case(s, "command") || str_eq_ignore_ascii_case(s, "cmd") {
        Some(KeyName::MetaLeft)
    } else {
        key_from_name(s)
    }
}

/// Parse a list of key names into a combination. The first entry that
/// names no key of the vocabulary is reported by its index.
pub fn parse_hotkey(names: &Vec<String>) -> (r: Result<Vec<KeyName>, HotkeyError>)
    ensures
        r is Ok <==> (forall|i: int| 0 <= i < names@.len() ==> parse_name(names@[i]@) is Some),
        r matches Ok(ks) ==> ks@.len() == names@.len() && (forall|i: int|
            0 <= i < names@.len() ==> Some(ks@[i]) == parse_name(names@[i]@)),
        r matches Err(e) ==> e matches HotkeyError::UnknownKey { index } && index < names@.len()
            && parse_name(names@[index as int]@) is None && (forall|j: int|
            0 <= j < index ==> parse_name(names@[j]@) is Some),
{
    let mut ks: Vec<KeyName> = Vec::new();
    let mut i: usize = 0;
    while i < names.len()
        invariant
            i <= names@.len(),
            ks@.len() == i,
            forall|j: int| 0 <= j < i ==> Some(ks@[j]) == parse_name(names@[j]@),
        decreases names@.len() - i,
    {
        match parse_one_name(names[i].as_str()) {
            Some(k) => ks.push(k),
            None => {
                proof {
                    assert forall|j: int| 0 <= j < i implies parse_name(names@[j]@) is Some by {
                        assert(Some(ks@[j]) == parse_name(names@[j]@));
                    }
                }
                return Err(HotkeyError::UnknownKey { index: i });
            },
        }
        i = i + 1;
    }
    proof {
        assert forall|j: int| 0 <= j < names@.len() implies parse_name(names@[j]@) is Some by {
            assert(Some(ks@[j]) == parse_name(names@[j]@));
        }
    }
    Ok(ks)
}

/// Whether some key of the combination is a modifier.
pub open spec fn has_modifier(ks: Seq<KeyName>) -> bool {
    exists|i: int| 0 <= i < ks.len() && spec_is_modifier(ks[i])
}

/// Whether some key of the combination is not a modifier.
pub open spec fn has_non_modifier(ks: Seq<KeyName>) -> bool {
    exists|i: int| 0 <= i < ks.len() && !spec_is_modifier(ks[i])
}

/// Check the combination invariant: at least one modifier key and at
/// least one non-modifier key. Validation succeeds exactly on
/// combinations with both, and the error names the missing class.
pub fn validate_hotkey(keys: &Vec<KeyName>) -> (r: Result<(), HotkeyError>)
    ensures
        r is Ok <==> has_modifier(keys@) && has_non_modifier(keys@),
        !has_modifier(keys@) ==> r == Err::<(), HotkeyError>(HotkeyError::NoModifier),
        has_modifier(keys@) && !has_non_modifier(keys@) ==> r == Err::<(), HotkeyError>(
            HotkeyError::NoNonModifier,
        ),
{
    let mut any_mod = false;
    let mut any_non = false;
    let mut i: usize = 0;
    while i < keys.len()
        invariant
            i <= keys@.len(),
            any_mod == (exists|j: int| 0 <= j < i && spec_is_modifier(keys@[j])),
            any_non == (exists|j: int| 0 <= j < i && !spec_is_modifier(keys@[j])),
        decreases keys@.len() - i,
    {
        if is_modifier(keys[i]) {
            any_mod = true;
        } else {
            any_non = true;
        }
        i = i + 1;
    }
    if !any_mod {
        Err(HotkeyError::NoModifier)
    } else if !any_non {
        Err(HotkeyError::NoNonModifier)
    } else {
        Ok(())
    }
}

/// The trimmed pieces of a hotkey string cut at every plus sign.
pub open spec fn hotkey_pieces(s: Seq<char>) -> Seq<Seq<char>> {
    split_plus(s).map_values(|p: Seq<char>| trimmed(p))
}

/// Parse a hotkey string such as `ControlLeft+Alt+ShiftLeft+Slash`:
/// cut at plus signs, trim whitespace, parse each piece. A blank
/// string parses to the empty combination.
pub fn parse_hotkey_str(input: &str) -> (r: Result<Vec<KeyName>, HotkeyError>)
    ensures
        trimmed(input@).len() == 0 ==> (r matches Ok(ks) && ks@.len() == 0),
        trimmed(input@).len() > 0 ==> {
            let pieces = hotkey_pieces(input@);
            &&& (r is Ok <==> (forall|i: int| 0 <= i < pieces.len() ==> parse_name(pieces[i]) is Some))
            &&& (r matches Ok(ks) ==> ks@.len() == pieces.len() && (forall|i: int|
                0 <= i < pieces.len() ==> Some(ks@[i]) == parse_name(pieces[i])))
            &&& (r matches Err(e) ==> e matches HotkeyError::UnknownKey { index } && index
                < pieces.len() && parse_name(pieces[index as int]) is None && (forall|j: int|
                0 <= j < index ==> parse_name(pieces[j]) is Some))
        },
{
    let t = trim_str(input);
    if t.as_str().unicode_len() == 0 {
        return Ok(Vec::new());
    }
    let raw = split_plus_str(input);
    let mut parts: Vec<String> = Vec::new();
    let mut i: usize = 0;
    while i < raw.len()
        invariant
            i <= raw@.len(),
            raw@.map_values(|p: String| p@) == split_plus(input@),
            parts@.len() == i,
            forall|j: int| 0 <= j < i ==> parts@[j]@ == hotkey_pieces(input@)[j],
        decreases raw@.len() - i,
    {
        let piece = trim_str(raw[i].as_str());
        parts.push(piece);
        i = i + 1;
    }
    proof {
        assert(parts@.map_values(|p: String| p@) =~= hotkey_pieces(input@));
    }
    parse_hotkey(&parts)
}

/// The default combination.
pub fn default_hotkey() -> (r: Vec<String>)
    ensures
        r@.len() == 4,
        r@[0]@ == "ControlLeft"@,
        r@[1]@ == "Alt"@,
        r@[2]@ == "ShiftLeft"@,
        r@[3]@ == "Slash"@,
{
    let mut v: Vec<String> = Vec::new();
    v.push("ControlLeft".to_owned());
    v.push("Alt".to_owned());
    v.push("ShiftLeft".to_owned());
    v.push("Slash".to_owned());
    v
}

/// The canonical names of a combination, joined with plus signs.
pub open spec fn joined_names(ks: Seq<KeyName>) -> Seq<char>
    decreases ks.len(),
{
    if ks.len() == 0 {
        Seq::<char>::empty()
    } else if ks.len() == 1 {
        name_seq(ks[0])
    } else {
        name_seq(ks[0]) + "+"@ + joined_names(ks.drop_first())
    }
}

proof fn lemma_joined_names_snoc(ks: Seq<KeyName>)
    requires
        ks.len() >= 2,
    ensures
        joined_names(ks) == joined_names(ks.drop_last()) + "+"@ + name_seq(ks.last()),
    decreases ks.len(),
{
    let rest = ks.drop_first();
    if ks.len() == 2 {
        assert(rest =~= seq![ks[1]]);
        assert(ks.drop_last() =~= seq![ks[0]]);
        assert(joined_names(rest) == name_seq(ks[1]));
        assert(joined_names(ks) == name_seq(ks[0]) + "+"@ + name_seq(ks[1]));
        assert(joined_names(ks.drop_last()) == name_seq(ks[0]));
        assert(joined_names(ks) == joined_names(ks.drop_last()) + "+"@ + name_seq(ks.last()));
    } else {
        lemma_joined_names_snoc(rest);
        let a = name_seq(ks[0]);
        let p = "+"@;
        let jx = joined_names(ks.drop_last().drop_first());
        let c = name_seq(ks.last());
        assert(rest.last() == ks.last());
        assert(rest.drop_last() =~= ks.drop_last().drop_first());
        assert(joined_names(rest) == jx + p + c);
        assert(joined_names(ks) == a + p + (jx + p + c));
        assert(a + p + (jx + p + c) =~= a + p + jx + p + c);
        assert(ks.drop_last().len() >= 2);
        assert(ks.drop_last()[0] == ks[0]);
        assert(joined_names(ks.drop_last()) == a + p + jx);
        assert(joined_names(ks) == joined_names(ks.drop_last()) + p + c);
    }
}

/// Render a combination as its canonical hotkey string.
pub fn hotkey_to_string(keys: &Vec<KeyName>) -> (r: String)
    ensures
        r@ == joined_names(keys@),
{
    let mut s = String::new();
    let mut i: usize = 0;
    while i < keys.len()
        invariant
            i <= keys@.len(),
            s@ == joined_names(keys@.take(i as int)),
        decreases keys@.len() - i,
    {
        if i > 0 {
            s.append("+");
        }
        s.append(key_name(keys[i]));
        proof {
            let t = keys@.take(i + 1);
            assert(t.drop_last() =~= keys@.take(i as int));
            assert(t.last() == keys@[i as int]);
            if i == 0 {
                assert(t =~= seq![keys@[0]]);
            } else {
                lemma_joined_names_snoc(t);
            }
        }
        i = i + 1;
    }
    proof {
        assert(keys@.take(keys@.len() as int) =~= keys@);
    }
    s
}

/// The name entry meant by one unit of GUI text input: the common
/// punctuation characters map to their key names, in both their plain
/// and their shifted spelling.
pub open spec fn text_name_of(t: Seq<char>) -> Option<Seq<char>> {
    if t == "/"@ || t == "?"@ {
        Some("Slash"@)
    } else if t == "\\"@ || t == "|"@ {
        Some("BackSlash"@)
    } else if t == ","@ || t == "<"@ {
        Some("Comma"@)
    } else if t == "."@ || t == ">"@ {
        Some("Dot"@)
    } else if t == ";"@ || t == ":"@ {
        Some("SemiColon"@)
    } else if t == "'"@ || t == "\""@ {
        Some("Quote"@)
    } else if t == "`"@ || t == "~"@ {
        Some("BackQuote"@)
    } else if t == "["@ || t == "{"@ {
        Some("LeftBracket"@)
    } else if t == "]"@ || t == "}"@ {
        Some("RightBracket"@)
    } else if t == "-"@ || t == "_"@ {
        Some("Minus"@)
    } else if t == "="@ || t == "+"@ {
        Some("Equal"@)
    } else {
        None
    }
}

/// Map one unit of GUI text input to a key name.
pub fn text_to_name(t: &str) -> (r: Option<String>)
    ensures
        match r {
            Some(name) => text_name_of(t@) == Some(name@),
            None => text_name_of(t@) is None,
        },
{
    if str_eq(t, "/") || str_eq(t, "?") {
        Some("Slash".to_owned())
    } else if str_eq(t, "\\") || str_eq(t, "|") {
        Some("BackSlash".to_owned())
    } else if str_eq(t, ",") || str_eq(t, "<") {
        Some("Comma".to_owned())
    } else if str_eq(t, ".") || str_eq(t, ">") {
        Some("Dot".to_owned())
    } else if str_eq(t, ";") || str_eq(t, ":") {
        Some("SemiColon".to_owned())
    } else if str_eq(t, "'") || str_eq(t, "\"") {
        Some("Quote".to_owned())
    } else if str_eq(t, "`") || str_eq(t, "~") {
        Some("BackQuote".to_owned())
    } else if str_eq(t, "[") || str_eq(t, "{") {
        Some("LeftBracket".to_owned())
    } else if str_eq(t, "]") || str_eq(t, "}") {
        Some("RightBracket".to_owned())
    } else if str_eq(t, "-") || str_eq(t, "_") {
        Some("Minus".to_owned())
    } else if str_eq(t, "=") || str_eq(t, "+") {
        Some("Equal".to_owned())
    } else {
        None
    }
}

} // verus!
