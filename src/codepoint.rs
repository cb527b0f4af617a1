//! Classified codepoints: each decoded scalar value or undecodable byte, with
//! the kind it falls under and what is needed to show it.

use std::cmp::Ordering;
use vstd::prelude::*;
use crate::render::{
    CodepointModel, EMPTY_SET, HATCHED_BOX, LRM, PLACEHOLDER, REPLACEMENT, RLM, character_form,
    codepoint_form, glyph_form, hex, hex_digit, name_form, value_form,
};
use vstd::string::StringExecFns;
use crate::strings::push_char;
use crate::unicode::{
    CharName, Diacritic, Direction, UnicodeCharacter, control_code_of, diacritic_of,
    direction_of, display_width, unicode_name,
};

verus! {

/// The values permanently reserved as non-characters: the 32 at the end of
/// the Arabic Presentation Forms-A block and the last two of every plane.
pub open spec fn is_noncharacter(c: char) -> bool {
    (0xFDD0 <= c as u32 <= 0xFDEF) || (c as u32) % 0x10000 >= 0xFFFE
}

/// The private-use block of the Basic Multilingual Plane and the two
/// supplementary private-use planes.
pub open spec fn is_private_use(c: char) -> bool {
    (0xE000 <= c as u32 <= 0xF8FF) || c as u32 >= 0xF0000
}

/// The kind of a scalar value, the first that applies: non-character,
/// private use, control code, named character, unknown.
pub open spec fn classify(c: char) -> CodepointModel {
    if is_noncharacter(c) {
        CodepointModel::NonCharacter(c)
    } else if is_private_use(c) {
        CodepointModel::PrivateUse(c)
    } else {
        match control_code_of(c) {
            Some(ctrl) => CodepointModel::ControlCode { c, code: ctrl.code@, name: ctrl.name@ },
            None => match unicode_name(c) {
                Some(name) => CodepointModel::Character {
                    c,
                    width: display_width(c) as u8,
                    name,
                    diacritic: diacritic_of(c),
                    direction: direction_of(c),
                },
                None => CodepointModel::Unknown(c),
            },
        }
    }
}

/// Classifying a scalar value keeps the value.
pub proof fn lemma_classify_value(c: char)
    ensures
        classify(c).value() == Ok::<char, u8>(c),
{
}

/// The classification of a decoded scalar value or of an undecodable byte.
pub open spec fn classify_unit(u: Result<char, u8>) -> CodepointModel {
    match u {
        Ok(c) => classify(c),
        Err(b) => CodepointModel::Invalid(b),
    }
}

/// A decoded scalar value or an undecodable byte, with its classification.
///
/// Two codepoints are equal, and ordered, by their value alone. Everything
/// else a codepoint holds is the classification of that value, so hashing it
/// whole agrees with that equality.
#[derive(Debug, Hash)]
pub struct Codepoint(CodepointKind);

#[derive(Debug, Hash)]
enum CodepointKind {
    Character { c: char, width: u8, name: CharName, diacritic: Diacritic, direction: Direction },
    ControlCode { c: char, code: &'static str, name: &'static str },
    NonCharacter(char),
    PrivateUse(char),
    Unknown(char),
    Invalid(u8),
}

impl View for Codepoint {
    type V = CodepointModel;

    closed spec fn view(&self) -> CodepointModel {
        match self.0 {
            CodepointKind::Character { c, width, name, diacritic, direction } => {
                CodepointModel::Character { c, width, name: name@, diacritic, direction }
            },
            CodepointKind::ControlCode { c, code, name } => {
                CodepointModel::ControlCode { c, code: code@, name: name@ }
            },
            CodepointKind::NonCharacter(c) => CodepointModel::NonCharacter(c),
            CodepointKind::PrivateUse(c) => CodepointModel::PrivateUse(c),
            CodepointKind::Unknown(c) => CodepointModel::Unknown(c),
            CodepointKind::Invalid(b) => CodepointModel::Invalid(b),
        }
    }
}

impl Clone for Codepoint {
    fn clone(&self) -> (r: Codepoint)
        ensures
            r@ == self@,
    {
        proof {
            use_type_invariant(self);
        }
        let kind = match &self.0 {
            CodepointKind::Character { c, width, name, diacritic, direction } => {
                CodepointKind::Character {
                    c: *c,
                    width: *width,
                    name: name.clone(),
                    diacritic: *diacritic,
                    direction: *direction,
                }
            },
            CodepointKind::ControlCode { c, code, name } => {
                CodepointKind::ControlCode { c: *c, code, name }
            },
            CodepointKind::NonCharacter(c) => CodepointKind::NonCharacter(*c),
            CodepointKind::PrivateUse(c) => CodepointKind::PrivateUse(*c),
            CodepointKind::Unknown(c) => CodepointKind::Unknown(*c),
            CodepointKind::Invalid(b) => CodepointKind::Invalid(*b),
        };
        Codepoint(kind)
    }
}

/// Classifying one scalar value twice, independently, gives the same kind
/// and the same name, width, diacritic class and direction.
pub proof fn lemma_classification_deterministic(c: char, a: CodepointModel, b: CodepointModel)
    requires
        a == classify(c),
        b == classify(c),
    ensures
        a == b,
        name_form(a) == name_form(b),
{
}

/// Rendering is a pure function: codepoints classified from the same value
/// give the same string under each display projection.
pub proof fn lemma_rendering_pure(u: Result<char, u8>, a: CodepointModel, b: CodepointModel)
    requires
        a == classify_unit(u),
        b == classify_unit(u),
    ensures
        value_form(a) == value_form(b),
        character_form(a) == character_form(b),
        name_form(a) == name_form(b),
        codepoint_form(a) == codepoint_form(b),
{
}

/// The reserved ranges end where they are said to: the values on the two
/// sides of each boundary classify differently.
pub proof fn lemma_reserved_boundaries(c: char)
    ensures
        (c as u32) % 0x10000 == 0xFFFD ==> !(classify(c) is NonCharacter),
        (c as u32) % 0x10000 >= 0xFFFE ==> classify(c) is NonCharacter,
        (c as u32) % 0x10000 == 0 ==> !(classify(c) is NonCharacter),
        c == '\u{FDCF}' || c == '\u{FDF0}' ==> !(classify(c) is NonCharacter),
        c == '\u{FDD0}' || c == '\u{FDEF}' ==> classify(c) is NonCharacter,
        c == '\u{D7FF}' || c == '\u{F900}' ==> !(classify(c) is PrivateUse),
        c == '\u{E000}' || c == '\u{F8FF}' || c == '\u{F0000}' ==> classify(c) is PrivateUse,
        c == '\u{EFFFF}' ==> classify(c) is NonCharacter,
{
}

/// Orders two values the way `Result<char, u8>` is ordered: scalar values by
/// number and before all bytes, bytes by number.
pub open spec fn value_cmp(a: Result<char, u8>, b: Result<char, u8>) -> Ordering {
    match (a, b) {
        (Ok(x), Ok(y)) => if (x as u32) < (y as u32) {
            Ordering::Less
        } else if x == y {
            Ordering::Equal
        } else {
            Ordering::Greater
        },
        (Ok(_), Err(_)) => Ordering::Less,
        (Err(_), Ok(_)) => Ordering::Greater,
        (Err(x), Err(y)) => if x < y {
            Ordering::Less
        } else if x == y {
            Ordering::Equal
        } else {
            Ordering::Greater
        },
    }
}

impl PartialEq for Codepoint {
    fn eq(&self, other: &Codepoint) -> (r: bool) {
        match (self.value(), other.value()) {
            (Ok(a), Ok(b)) => a == b,
            (Err(a), Err(b)) => a == b,
            _ => false,
        }
    }
}

impl vstd::std_specs::cmp::PartialEqSpecImpl for Codepoint {
    open spec fn obeys_eq_spec() -> bool {
        true
    }

    open spec fn eq_spec(&self, other: &Codepoint) -> bool {
        self@.value() == other@.value()
    }
}

impl Eq for Codepoint {

}

impl PartialOrd for Codepoint {
    fn partial_cmp(&self, other: &Codepoint) -> (r: Option<Ordering>) {
        let ord = match (self.value(), other.value()) {
            (Ok(a), Ok(b)) => if (a as u32) < (b as u32) {
                Ordering::Less
            } else if a == b {
                Ordering::Equal
            } else {
                Ordering::Greater
            },
            (Ok(_), Err(_)) => Ordering::Less,
            (Err(_), Ok(_)) => Ordering::Greater,
            (Err(a), Err(b)) => if a < b {
                Ordering::Less
            } else if a == b {
                Ordering::Equal
            } else {
                Ordering::Greater
            },
        };
        Some(ord)
    }
}

impl vstd::std_specs::cmp::PartialOrdSpecImpl for Codepoint {
    open spec fn obeys_partial_cmp_spec() -> bool {
        true
    }

    open spec fn partial_cmp_spec(&self, other: &Codepoint) -> Option<Ordering> {
        Some(value_cmp(self@.value(), other@.value()))
    }
}

/// Upper-case hexadecimal digit.
fn hex_digit_char(d: u32) -> (r: char)
    requires
        d < 16,
    ensures
        r == hex_digit(d as int),
{
    match d {
        0 => '0',
        1 => '1',
        2 => '2',
        3 => '3',
        4 => '4',
        5 => '5',
        6 => '6',
        7 => '7',
        8 => '8',
        9 => '9',
        10 => 'A',
        11 => 'B',
        12 => 'C',
        13 => 'D',
        14 => 'E',
        _ => 'F',
    }
}

/// Appends the lowest `n` hexadecimal digits of `v`.
fn push_hex(out: &mut String, v: u32, n: u32)
    ensures
        final(out)@ == old(out)@ + hex(v as nat, n as nat),
    decreases n,
{
    if n > 0 {
        push_hex(out, v / 16, n - 1);
        push_char(out, hex_digit_char(v % 16));
        assert(out@ =~= old(out)@ + hex(v as nat, n as nat));
    }
}

/// Appends the glyph of a named character between its guards.
fn push_glyph(out: &mut String, c: char, width: u8, diacritic: Diacritic, direction: Direction)
    ensures
        final(out)@ == old(out)@ + glyph_form(c, width, diacritic, direction),
{
    let rtl = match direction {
        Direction::RightToLeft => true,
        _ => false,
    };
    match diacritic {
        Diacritic::Single => {
            if rtl {
                push_char(out, LRM);
                push_char(out, RLM);
            }
            push_char(out, PLACEHOLDER);
            push_char(out, c);
            if rtl {
                push_char(out, RLM);
                push_char(out, LRM);
            }
        },
        Diacritic::Double => {
            if rtl {
                push_char(out, LRM);
                push_char(out, RLM);
            }
            push_char(out, PLACEHOLDER);
            push_char(out, c);
            push_char(out, PLACEHOLDER);
            if rtl {
                push_char(out, RLM);
                push_char(out, LRM);
            }
        },
        Diacritic::No => {
            if width != 0 {
                if rtl {
                    push_char(out, LRM);
                }
                push_char(out, c);
                if rtl {
                    push_char(out, LRM);
                }
            }
        },
    }
    assert(out@ =~= old(out)@ + glyph_form(c, width, diacritic, direction));
}

/// Renders with `write`, which is handed an empty string, appends to it and
/// gives it back.
pub fn display_with<F: FnOnce(String) -> String>(write: F) -> (r: String)
    requires
        forall|s: String| s@.len() == 0 ==> #[trigger] write.requires((s,)),
    ensures
        exists|s: String| s@.len() == 0 && #[trigger] write.ensures((s,), r),
{
    write(String::new())
}

impl Codepoint {
    #[verifier::type_invariant]
    spec fn classified(self) -> bool {
        self@ == classify_unit(self@.value())
    }

    /// Classifies a decoded scalar value.
    pub fn from_valid(c: char) -> (r: Codepoint)
        ensures
            r@ == classify(c),
    {
        let v = c as u32;
        let kind = if (0xFDD0 <= v && v <= 0xFDEF) || v % 0x10000 >= 0xFFFE {
            CodepointKind::NonCharacter(c)
        } else if (0xE000 <= v && v <= 0xF8FF) || v >= 0xF0000 {
            CodepointKind::PrivateUse(c)
        } else {
            match c.control_code() {
                Some(ctrl) => CodepointKind::ControlCode { c, code: ctrl.code, name: ctrl.name },
                None => match c.name() {
                    Some(name) => CodepointKind::Character {
                        c,
                        width: c.width() as u8,
                        name,
                        diacritic: c.diacritic(),
                        direction: c.direction(),
                    },
                    None => CodepointKind::Unknown(c),
                },
            }
        };
        Codepoint(kind)
    }

    /// A byte that is not part of any valid UTF-8 sequence.
    pub fn from_invalid(byte: u8) -> (r: Codepoint)
        ensures
            r@ == CodepointModel::Invalid(byte),
    {
        Codepoint(CodepointKind::Invalid(byte))
    }

    /// The decoded scalar value, or the undecodable byte. The rest of the
    /// codepoint is the classification of that value.
    pub fn value(&self) -> (r: Result<char, u8>)
        ensures
            r == self@.value(),
            self@ == classify_unit(r),
    {
        proof {
            use_type_invariant(self);
        }
        match &self.0 {
            CodepointKind::Character { c, .. } => Ok(*c),
            CodepointKind::ControlCode { c, .. } => Ok(*c),
            CodepointKind::NonCharacter(c) => Ok(*c),
            CodepointKind::PrivateUse(c) => Ok(*c),
            CodepointKind::Unknown(c) => Ok(*c),
            CodepointKind::Invalid(b) => Err(*b),
        }
    }

    /// The descriptive name.
    pub fn name(&self) -> (r: String)
        ensures
            r@ == name_form(self@),
    {
        self.display_name()
    }

    /// `U+` and four or six hexadecimal digits, or `0x` and two for a byte.
    pub fn display_value(&self) -> (r: String)
        ensures
            r@ == value_form(self@),
    {
        let write = (|out: String| -> (r: String)
            ensures
                r@ == out@ + value_form(self@),
            {
                let mut out = out;
                let ghost start = out@;
                match self.value() {
                    Ok(c) => {
                        push_char(&mut out, 'U');
                        push_char(&mut out, '+');
                        let v = c as u32;
                        if v <= 0xFFFF {
                            push_hex(&mut out, v, 4);
                        } else {
                            push_hex(&mut out, v, 6);
                        }
                    },
                    Err(b) => {
                        push_char(&mut out, '0');
                        push_char(&mut out, 'x');
                        push_hex(&mut out, b as u32, 2);
                    },
                }
                assert(out@ =~= start + value_form(self@));
                out
            });
        display_with(write)
    }

    /// The terminal-safe rendering: a quoted glyph, an abbreviation, or the
    /// symbol of the codepoint's kind.
    pub fn display_character(&self) -> (r: String)
        ensures
            r@ == character_form(self@),
    {
        let write = (|out: String| -> (r: String)
            ensures
                r@ == out@ + character_form(self@),
            {
                let mut out = out;
                let ghost start = out@;
                match &self.0 {
                    CodepointKind::Character { c, width, diacritic, direction, .. } => {
                        push_char(&mut out, '\'');
                        push_glyph(&mut out, *c, *width, *diacritic, *direction);
                        push_char(&mut out, '\'');
                    },
                    CodepointKind::ControlCode { code, .. } => out.append(code),
                    CodepointKind::NonCharacter(_) => push_char(&mut out, EMPTY_SET),
                    CodepointKind::PrivateUse(_) => push_char(&mut out, HATCHED_BOX),
                    CodepointKind::Unknown(_) => push_char(&mut out, '?'),
                    CodepointKind::Invalid(_) => push_char(&mut out, REPLACEMENT),
                }
                assert(out@ =~= start + character_form(self@));
                out
            });
        display_with(write)
    }

    /// The name of a character or control code; a fixed description for the
    /// other kinds.
    pub fn display_name(&self) -> (r: String)
        ensures
            r@ == name_form(self@),
    {
        let write = (|out: String| -> (r: String)
            ensures
                r@ == out@ + name_form(self@),
            {
                let mut out = out;
                match &self.0 {
                    CodepointKind::Character { name, .. } => out.append(name.as_str()),
                    CodepointKind::ControlCode { name, .. } => out.append(name),
                    CodepointKind::NonCharacter(_) => out.append("NOT A CHARACTER"),
                    CodepointKind::PrivateUse(_) => out.append("RESERVED FOR PRIVATE USE"),
                    CodepointKind::Unknown(_) => out.append("UNKNOWN CHARACTER"),
                    CodepointKind::Invalid(_) => out.append("INVALID UTF-8"),
                }
                out
            });
        display_with(write)
    }

    /// The form the codepoint takes inside a cluster or a text: characters
    /// and control codes by their rendering, the other kinds by their value.
    pub fn to_string(&self) -> (r: String)
        ensures
            r@ == codepoint_form(self@),
    {
        match &self.0 {
            CodepointKind::Character { .. } | CodepointKind::ControlCode { .. } => {
                self.display_character()
            },
            _ => self.display_value(),
        }
    }
}

} // verus!
