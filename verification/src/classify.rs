//! The lexical line classifier: one pure dispatch on the leading characters
//! of a trimmed line, shared verbatim by the parser and the validator so
//! both read a chart identically.

use vstd::prelude::*;
use crate::types::NoteType;

verus! {

/// What a trimmed line is, by its leading character(s), in priority order:
/// `#` header, a note marker, `-` line break, exactly `E` end sentinel,
/// `P` player switch, anything else unknown.
#[derive(Clone, Copy, Debug, PartialEq, Eq, Structural)]
pub enum LineClass {
    Header,
    NoteMark(NoteType),
    BreakMark,
    EndMark,
    PlayerMark,
    Unknown,
}

pub open spec fn spec_classify(s: Seq<char>) -> LineClass {
    if s.len() == 0 {
        LineClass::Unknown
    } else if s[0] == '#' {
        LineClass::Header
    } else if s[0] == ':' {
        LineClass::NoteMark(NoteType::Normal)
    } else if s[0] == '*' {
        LineClass::NoteMark(NoteType::Golden)
    } else if s[0] == 'F' {
        LineClass::NoteMark(NoteType::Freestyle)
    } else if s[0] == 'R' {
        LineClass::NoteMark(NoteType::Rap)
    } else if s[0] == 'G' {
        LineClass::NoteMark(NoteType::GoldenRap)
    } else if s[0] == '-' {
        LineClass::BreakMark
    } else if s.len() == 1 && s[0] == 'E' {
        LineClass::EndMark
    } else if s[0] == 'P' {
        LineClass::PlayerMark
    } else {
        LineClass::Unknown
    }
}

/// Classify a trimmed line.
pub fn classify(v: &Vec<char>) -> (r: LineClass)
    ensures
        r == spec_classify(v@),
{
    if v.len() == 0 {
        return LineClass::Unknown;
    }
    let c = v[0];
    if c == '#' {
        LineClass::Header
    } else if c == ':' {
        LineClass::NoteMark(NoteType::Normal)
    } else if c == '*' {
        LineClass::NoteMark(NoteType::Golden)
    } else if c == 'F' {
        LineClass::NoteMark(NoteType::Freestyle)
    } else if c == 'R' {
        LineClass::NoteMark(NoteType::Rap)
    } else if c == 'G' {
        LineClass::NoteMark(NoteType::GoldenRap)
    } else if c == '-' {
        LineClass::BreakMark
    } else if v.len() == 1 && c == 'E' {
        LineClass::EndMark
    } else if c == 'P' {
        LineClass::PlayerMark
    } else {
        LineClass::Unknown
    }
}

/// The player a standalone switch line selects: `P1`/`P 1` and `P2`/`P 2`;
/// any other line starting with `P` switches nobody and is ignored.
pub open spec fn spec_switch_target(s: Seq<char>) -> Option<u8> {
    if s == "P1"@ || s == "P 1"@ {
        Some(1u8)
    } else if s == "P2"@ || s == "P 2"@ {
        Some(2u8)
    } else {
        None
    }
}

pub fn switch_target(v: &Vec<char>) -> (r: Option<u8>)
    ensures
        r == spec_switch_target(v@),
{
    if crate::text::eq_str(v, "P1") || crate::text::eq_str(v, "P 1") {
        Some(1)
    } else if crate::text::eq_str(v, "P2") || crate::text::eq_str(v, "P 2") {
        Some(2)
    } else {
        None
    }
}

} // verus!
