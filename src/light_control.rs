//! Identifiers and payloads of the light control service.

use vstd::prelude::*;
use crate::coded::{IntCoded, INVALID_CODE};
use vstd::string::*;
use crate::text::{trim, trimmed};

verus! {

/// Operations of the light control service.
#[derive(Debug, Clone, Copy, PartialEq, Eq, Hash, Structural)]
pub enum LightApiId {
    SetLedLightColor,
    StopLedLightControl,
}

impl IntCoded for LightApiId {
    open spec fn code_spec(self) -> int {
        match self {
            LightApiId::SetLedLightColor => 2000,
            LightApiId::StopLedLightControl => 2001,
        }
    }

    open spec fn from_code_spec(code: int) -> Option<Self> {
        if code == 2000 {
            Some(LightApiId::SetLedLightColor)
        } else if code == 2001 {
            Some(LightApiId::StopLedLightControl)
        } else {
            None
        }
    }

    proof fn lemma_round_trip(self) {
    }

    proof fn lemma_code_of_decoded(code: int) {
    }
}

impl From<LightApiId> for i32 {
    fn from(v: LightApiId) -> (r: i32) {
        match v {
            LightApiId::SetLedLightColor => 2000,
            LightApiId::StopLedLightControl => 2001,
        }
    }
}

impl vstd::std_specs::convert::FromSpecImpl<LightApiId> for i32 {
    open spec fn obeys_from_spec() -> bool {
        true
    }

    open spec fn from_spec(v: LightApiId) -> i32 {
        v.code_spec() as i32
    }
}

impl TryFrom<i32> for LightApiId {
    type Error = &'static str;

    fn try_from(v: i32) -> (r: Result<LightApiId, &'static str>) {
        match v {
            2000 => Ok(LightApiId::SetLedLightColor),
            2001 => Ok(LightApiId::StopLedLightControl),
            _ => Err(INVALID_CODE),
        }
    }
}

impl vstd::std_specs::convert::TryFromSpecImpl<i32> for LightApiId {
    open spec fn obeys_try_from_spec() -> bool {
        true
    }

    open spec fn try_from_spec(v: i32) -> Result<LightApiId, &'static str> {
        match LightApiId::from_code_spec(v as int) {
            Some(m) => Ok(m),
            None => Err(INVALID_CODE),
        }
    }
}

/// An LED colour.
#[derive(Debug, Clone, Copy, PartialEq, Eq, Structural)]
pub struct SetLedLightColorParameter {
    pub r: u8,
    pub g: u8,
    pub b: u8,
}

/// The value of a hexadecimal digit, if `c` is one.
pub open spec fn hex_digit_value(c: char) -> Option<int> {
    if '0' <= c && c <= '9' {
        Some((c as u32) as int - ('0' as u32) as int)
    } else if 'a' <= c && c <= 'f' {
        Some((c as u32) as int - ('a' as u32) as int + 10)
    } else if 'A' <= c && c <= 'F' {
        Some((c as u32) as int - ('A' as u32) as int + 10)
    } else {
        None
    }
}

/// Whether `s` is one or more hexadecimal digits.
pub open spec fn all_hex_digits(s: Seq<char>) -> bool {
    s.len() > 0 && forall|i: int| 0 <= i < s.len() ==> (#[trigger] hex_digit_value(s[i])) is Some
}

/// The value of a run of hexadecimal digits.
pub open spec fn hex_value(s: Seq<char>) -> int
    decreases s.len(),
{
    if s.len() == 0 {
        0
    } else {
        hex_value(s.drop_last()) * 16 + match hex_digit_value(s.last()) {
            Some(d) => d,
            None => 0,
        }
    }
}

/// The byte that `s` writes in hexadecimal, as `u8::from_str_radix(s, 16)`
/// reads it: an optional `+`, then one or more digits, with a value below 256.
pub open spec fn hex_byte(s: Seq<char>) -> Option<u8> {
    let digits = if s.len() > 0 && s[0] == '+' {
        s.drop_first()
    } else {
        s
    };
    if all_hex_digits(digits) && hex_value(digits) < 256 {
        Some(hex_value(digits) as u8)
    } else {
        None
    }
}

/// Relies on `u8::from_str_radix` in base 16.
#[verifier::external_body]
fn parse_hex_byte(s: &str) -> (r: Option<u8>)
    ensures
        r == hex_byte(s@),
{
    u8::from_str_radix(s, 16).ok()
}

/// The colour that a `#RRGGBB` text writes, surrounding white space aside.
pub open spec fn color_of_hex(s: Seq<char>) -> Option<SetLedLightColorParameter> {
    let t = trimmed(s);
    if t.len() == 7 && t[0] == '#' {
        match (hex_byte(t.subrange(1, 3)), hex_byte(t.subrange(3, 5)), hex_byte(t.subrange(5, 7))) {
            (Some(r), Some(g), Some(b)) => Some(SetLedLightColorParameter { r, g, b }),
            _ => None,
        }
    } else {
        None
    }
}

impl SetLedLightColorParameter {
    /// Reads a `#RRGGBB` colour; `None` for any other text.
    pub fn from_hex(color: &str) -> (r: Option<SetLedLightColorParameter>)
        ensures
            r == color_of_hex(color@),
    {
        let t = trim(color);
        if t.unicode_len() != 7 || t.get_char(0) != '#' {
            return None;
        }
        let r = parse_hex_byte(t.substring_char(1, 3));
        let g = parse_hex_byte(t.substring_char(3, 5));
        let b = parse_hex_byte(t.substring_char(5, 7));
        match (r, g, b) {
            (Some(r), Some(g), Some(b)) => Some(SetLedLightColorParameter { r, g, b }),
            _ => None,
        }
    }
}

} // verus!
