//! The textual forms in which codepoints, grapheme clusters and whole texts
//! are shown.

use vstd::prelude::*;
use crate::unicode::{Diacritic, Direction};

verus! {

/// Dotted circle: the placeholder base a combining mark is drawn on.
pub const PLACEHOLDER: char = '\u{25CC}';

/// Left-to-right mark.
pub const LRM: char = '\u{200E}';

/// Right-to-left mark.
pub const RLM: char = '\u{200F}';

/// Empty set: shown for a non-character.
pub const EMPTY_SET: char = '\u{2205}';

/// Hatched square: shown for a private-use character.
pub const HATCHED_BOX: char = '\u{25A8}';

/// The replacement character: shown for a byte that is not valid UTF-8.
pub const REPLACEMENT: char = '\u{FFFD}';

/// What a codepoint is, in plain values: the model of `Codepoint`.
pub enum CodepointModel {
    Character {
        c: char,
        width: u8,
        name: Seq<char>,
        diacritic: Diacritic,
        direction: Direction,
    },
    ControlCode { c: char, code: Seq<char>, name: Seq<char> },
    NonCharacter(char),
    PrivateUse(char),
    Unknown(char),
    Invalid(u8),
}

impl CodepointModel {
    /// The decoded scalar value, or the byte that could not be decoded.
    pub open spec fn value(self) -> Result<char, u8> {
        match self {
            CodepointModel::Character { c, .. } => Ok(c),
            CodepointModel::ControlCode { c, .. } => Ok(c),
            CodepointModel::NonCharacter(c) => Ok(c),
            CodepointModel::PrivateUse(c) => Ok(c),
            CodepointModel::Unknown(c) => Ok(c),
            CodepointModel::Invalid(b) => Err(b),
        }
    }
}

/// Upper-case hexadecimal digit of `d`, for `d < 16`.
pub open spec fn hex_digit(d: int) -> char {
    if d < 10 {
        (d + 0x30) as char
    } else {
        (d - 10 + 0x41) as char
    }
}

/// The lowest `n` hexadecimal digits of `v`, most significant first.
pub open spec fn hex(v: nat, n: nat) -> Seq<char>
    decreases n,
{
    if n == 0 {
        seq![]
    } else {
        hex(v / 16, (n - 1) as nat).push(hex_digit((v % 16) as int))
    }
}

/// `U+` and four hexadecimal digits for a scalar value up to 0xFFFF, six
/// above; `0x` and two digits for an undecodable byte.
pub open spec fn value_form(m: CodepointModel) -> Seq<char> {
    match m.value() {
        Ok(c) => if c as u32 <= 0xFFFF {
            seq!['U', '+'] + hex(c as nat, 4)
        } else {
            seq!['U', '+'] + hex(c as nat, 6)
        },
        Err(b) => seq!['0', 'x'] + hex(b as nat, 2),
    }
}

/// The glyph of a named character between its guards: placeholder circles
/// for a combining mark, left-to-right marks around right-to-left text, and
/// right-to-left marks around the placeholders of a right-to-left combining
/// mark; nothing for a zero-width character that is not a combining mark.
pub open spec fn glyph_form(c: char, width: u8, diacritic: Diacritic, direction: Direction) -> Seq<
    char,
> {
    let rtl = direction == Direction::RightToLeft;
    match diacritic {
        Diacritic::Single => if rtl {
            seq![LRM, RLM, PLACEHOLDER, c, RLM, LRM]
        } else {
            seq![PLACEHOLDER, c]
        },
        Diacritic::Double => if rtl {
            seq![LRM, RLM, PLACEHOLDER, c, PLACEHOLDER, RLM, LRM]
        } else {
            seq![PLACEHOLDER, c, PLACEHOLDER]
        },
        Diacritic::No => if width == 0 {
            seq![]
        } else if rtl {
            seq![LRM, c, LRM]
        } else {
            seq![c]
        },
    }
}

/// The terminal-safe rendering of a codepoint.
pub open spec fn character_form(m: CodepointModel) -> Seq<char> {
    match m {
        CodepointModel::Character { c, width, diacritic, direction, .. } => seq!['\''] + glyph_form(
            c,
            width,
            diacritic,
            direction,
        ) + seq!['\''],
        CodepointModel::ControlCode { code, .. } => code,
        CodepointModel::NonCharacter(_) => seq![EMPTY_SET],
        CodepointModel::PrivateUse(_) => seq![HATCHED_BOX],
        CodepointModel::Unknown(_) => seq!['?'],
        CodepointModel::Invalid(_) => seq![REPLACEMENT],
    }
}

/// The descriptive name of a codepoint.
pub open spec fn name_form(m: CodepointModel) -> Seq<char> {
    match m {
        CodepointModel::Character { name, .. } => name,
        CodepointModel::ControlCode { name, .. } => name,
        CodepointModel::NonCharacter(_) => "NOT A CHARACTER"@,
        CodepointModel::PrivateUse(_) => "RESERVED FOR PRIVATE USE"@,
        CodepointModel::Unknown(_) => "UNKNOWN CHARACTER"@,
        CodepointModel::Invalid(_) => "INVALID UTF-8"@,
    }
}

/// A named character of display width 0 that is not a combining mark
/// renders as an empty quoted string, whatever its direction.
pub proof fn lemma_zero_width_renders_empty(m: CodepointModel)
    requires
        m matches CodepointModel::Character { width, diacritic, .. } && width == 0 && diacritic
            == Diacritic::No,
    ensures
        character_form(m) == seq!['\'', '\''],
{
    assert(character_form(m) =~= seq!['\'', '\'']);
}

/// How a codepoint appears inside a cluster or text: characters and control
/// codes by their rendering, the other kinds by their value.
pub open spec fn codepoint_form(m: CodepointModel) -> Seq<char> {
    match m {
        CodepointModel::Character { .. } | CodepointModel::ControlCode { .. } => character_form(m),
        _ => value_form(m),
    }
}

/// The parts joined with `sep` between each two neighbours.
pub open spec fn joined(parts: Seq<Seq<char>>, sep: Seq<char>) -> Seq<char>
    decreases parts.len(),
{
    if parts.len() == 0 {
        seq![]
    } else if parts.len() == 1 {
        parts[0]
    } else {
        joined(parts.drop_last(), sep) + sep + parts.last()
    }
}

/// A lone codepoint as itself; several as `[a + b + ...]`.
pub open spec fn grapheme_form(g: Seq<CodepointModel>) -> Seq<char> {
    if g.len() == 1 {
        codepoint_form(g[0])
    } else {
        seq!['['] + joined(g.map_values(|m: CodepointModel| codepoint_form(m)), seq![' ', '+', ' '])
            + seq![']']
    }
}

/// The renderings of the non-empty clusters, in order.
pub open spec fn text_items(t: Seq<Seq<CodepointModel>>) -> Seq<Seq<char>>
    decreases t.len(),
{
    if t.len() == 0 {
        seq![]
    } else if t.last().len() > 0 {
        text_items(t.drop_last()).push(grapheme_form(t.last()))
    } else {
        text_items(t.drop_last())
    }
}

/// A text as `[g1, g2, ...]`, skipping empty clusters.
pub open spec fn text_form(t: Seq<Seq<CodepointModel>>) -> Seq<char> {
    seq!['['] + joined(text_items(t), seq![',', ' ']) + seq![']']
}

} // verus!
