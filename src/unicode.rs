//! Per-character Unicode properties: control-code abbreviations, combining
//! marks, text direction, display width and names.

use vstd::prelude::*;

verus! {

/// How a combining mark is drawn around placeholder circles.
#[derive(Debug, Clone, Copy, PartialEq, Eq, Hash, Structural)]
pub enum Diacritic {
    /// Not a combining (grapheme-extending) mark.
    No,
    /// A combining mark drawn on one placeholder base.
    Single,
    /// A wide combining mark drawn between two placeholder bases.
    Double,
}

/// The bidirectional category of a character, collapsed to three values.
#[derive(Debug, Clone, Copy, PartialEq, Eq, Hash, Structural)]
pub enum Direction {
    LeftToRight,
    RightToLeft,
    Neutral,
}

/// A control or format character's conventional abbreviation and long name.
#[derive(Debug, Clone, Copy, PartialEq, Eq, Hash)]
pub struct ControlCode {
    pub code: &'static str,
    pub name: &'static str,
}

/// The name of a character, as listed in the Unicode name table.
#[derive(Debug, PartialEq, Eq, Hash)]
pub struct CharName(String);

impl View for CharName {
    type V = Seq<char>;

    closed spec fn view(&self) -> Seq<char> {
        self.0@
    }
}

impl Clone for CharName {
    fn clone(&self) -> (r: CharName)
        ensures
            r@ == self@,
    {
        CharName(self.0.clone())
    }
}

impl CharName {
    pub fn as_str(&self) -> (r: &str)
        ensures
            r@ == self@,
    {
        self.0.as_str()
    }
}

/// Unicode properties of a single scalar value.
pub trait UnicodeCharacter {
    type Name;

    /// The character's name, if the name table lists one.
    fn name(&self) -> Option<Self::Name>;

    /// The number of terminal cells the character occupies.
    fn width(&self) -> usize;

    /// The abbreviation under which the character is shown, if it is one of
    /// the control and format characters that are drawn as an abbreviation.
    fn control_code(&self) -> Option<ControlCode>;

    /// Whether the character is a combining mark, and how wide.
    fn diacritic(&self) -> Diacritic;

    /// The character's text direction.
    fn direction(&self) -> Direction;
}

/// What the Unicode name table lists for a character.
pub uninterp spec fn unicode_name(c: char) -> Option<Seq<char>>;

/// The terminal column count that the width table gives a character; none for
/// control characters.
pub uninterp spec fn column_width(c: char) -> Option<usize>;

/// Whether a character has the Grapheme_Extend property.
pub uninterp spec fn is_grapheme_extend(c: char) -> bool;

/// The position of a character's bidirectional class in ucd's `BidiClass`
/// enumeration.
pub uninterp spec fn bidi_class_index(c: char) -> u8;

/// Relies on unicode_names2::name: the character's name from the crate's
/// compressed copy of the Unicode name table, or none.
#[verifier::external_body]
fn lookup_name(c: char) -> (r: Option<String>)
    ensures
        match r {
            Some(s) => unicode_name(c) == Some(s@),
            None => unicode_name(c) is None,
        },
{
    unicode_names2::name(c).map(|n| n.to_string())
}

/// Relies on unicode_width's UnicodeWidthChar::width for `char`: the column
/// count from the crate's tables, never more than 3, or none for a control
/// character.
#[verifier::external_body]
fn column_width_of(c: char) -> (r: Option<usize>)
    ensures
        r == column_width(c),
        r matches Some(w) ==> w <= 3,
{
    unicode_width::UnicodeWidthChar::width(c)
}

/// Relies on ucd's Codepoint::is_grapheme_extend for `char`: membership in
/// the crate's Grapheme_Extend table.
#[verifier::external_body]
fn grapheme_extend(c: char) -> (r: bool)
    ensures
        r == is_grapheme_extend(c),
{
    ucd::Codepoint::is_grapheme_extend(c)
}

/// Relies on ucd's Codepoint::bidi_class for `char`: the class from the
/// crate's tables, given as its position in the `BidiClass` enumeration.
#[verifier::external_body]
fn bidi_class(c: char) -> (r: u8)
    ensures
        r == bidi_class_index(c),
{
    ucd::Codepoint::bidi_class(c) as u8
}

// Positions in ucd's `BidiClass` of the classes that decide a direction.
pub const BIDI_LEFT_TO_RIGHT: u8 = 0;
pub const BIDI_RIGHT_TO_LEFT: u8 = 1;
pub const BIDI_ARABIC_LETTER: u8 = 2;
pub const BIDI_RIGHT_TO_LEFT_EMBEDDING: u8 = 16;
pub const BIDI_RIGHT_TO_LEFT_OVERRIDE: u8 = 17;
pub const BIDI_RIGHT_TO_LEFT_ISOLATE: u8 = 20;

/// The three-way collapse of a bidirectional class: right-to-left letters and
/// the right-to-left embedding, override and isolate controls read right to
/// left, left-to-right letters read left to right, everything else is
/// neutral.
pub open spec fn direction_of_class(k: u8) -> Direction {
    if k == BIDI_LEFT_TO_RIGHT {
        Direction::LeftToRight
    } else if k == BIDI_RIGHT_TO_LEFT || k == BIDI_ARABIC_LETTER || k
        == BIDI_RIGHT_TO_LEFT_EMBEDDING || k == BIDI_RIGHT_TO_LEFT_OVERRIDE || k
        == BIDI_RIGHT_TO_LEFT_ISOLATE {
        Direction::RightToLeft
    } else {
        Direction::Neutral
    }
}

pub open spec fn direction_of(c: char) -> Direction {
    direction_of_class(bidi_class_index(c))
}

/// The display width of a character, with control characters counted as 0.
pub open spec fn display_width(c: char) -> usize {
    match column_width(c) {
        Some(w) => w,
        None => 0,
    }
}

/// Combining marks that span two base characters.
pub open spec fn is_double_diacritic(c: char) -> bool {
    ||| c == '\u{035C}'  // COMBINING DOUBLE BREVE BELOW
    ||| c == '\u{035D}'  // COMBINING DOUBLE BREVE
    ||| c == '\u{035E}'  // COMBINING DOUBLE MACRON
    ||| c == '\u{035F}'  // COMBINING DOUBLE MACRON BELOW
    ||| c == '\u{0360}'  // COMBINING DOUBLE TILDE
    ||| c == '\u{0361}'  // COMBINING DOUBLE INVERTED BREVE
    ||| c == '\u{0362}'  // COMBINING DOUBLE RIGHTWARDS ARROW BELOW
    ||| c == '\u{1DCD}'  // COMBINING DOUBLE CIRCUMFLEX ABOVE
    ||| c == '\u{1DFC}'  // COMBINING DOUBLE INVERTED BREVE BELOW
}

pub open spec fn diacritic_of(c: char) -> Diacritic {
    if !is_grapheme_extend(c) {
        Diacritic::No
    } else if is_double_diacritic(c) {
        Diacritic::Double
    } else {
        Diacritic::Single
    }
}

/// The characters shown as an abbreviation rather than as a glyph: the C0 and
/// C1 control codes and a curated set of invisible format characters.
pub open spec fn control_code_of(c: char) -> Option<ControlCode> {
    match c {
        // Block: Basic Latin
        '\u{0000}' => Some(ControlCode { code: "NUL", name: "NULL" }),
        '\u{0001}' => Some(ControlCode { code: "SOH", name: "START OF HEADING" }),
        '\u{0002}' => Some(ControlCode { code: "STX", name: "START OF TEXT" }),
        '\u{0003}' => Some(ControlCode { code: "ETX", name: "END OF TEXT" }),
        '\u{0004}' => Some(ControlCode { code: "EOT", name: "END OF TRANSMISSION" }),
        '\u{0005}' => Some(ControlCode { code: "ENQ", name: "ENQUIRY" }),
        '\u{0006}' => Some(ControlCode { code: "ACK", name: "ACKNOWLEDGE" }),
        '\u{0007}' => Some(ControlCode { code: "BEL", name: "ALERT" }),
        '\u{0008}' => Some(ControlCode { code: "BS", name: "BACKSPACE" }),
        '\u{0009}' => Some(ControlCode { code: "HT", name: "CHARACTER TABULATION" }),
        '\u{000A}' => Some(ControlCode { code: "LF", name: "LINE FEED" }),
        '\u{000B}' => Some(ControlCode { code: "VT", name: "LINE TABULATION" }),
        '\u{000C}' => Some(ControlCode { code: "FF", name: "FORM FEED" }),
        '\u{000D}' => Some(ControlCode { code: "CR", name: "CARRIAGE RETURN" }),
        '\u{000E}' => Some(ControlCode { code: "SO", name: "SHIFT OUT" }),
        '\u{000F}' => Some(ControlCode { code: "SI", name: "SHIFT IN" }),
        '\u{0010}' => Some(ControlCode { code: "DLE", name: "DATA LINK ESCAPE" }),
        '\u{0011}' => Some(ControlCode { code: "DC1", name: "DEVICE CONTROL 1" }),
        '\u{0012}' => Some(ControlCode { code: "DC2", name: "DEVICE CONTROL 2" }),
        '\u{0013}' => Some(ControlCode { code: "DC3", name: "DEVICE CONTROL 3" }),
        '\u{0014}' => Some(ControlCode { code: "DC4", name: "DEVICE CONTROL 4" }),
        '\u{0015}' => Some(ControlCode { code: "NAK", name: "NEGATIVE ACKNOWLEDGE" }),
        '\u{0016}' => Some(ControlCode { code: "SYN", name: "SYNCHRONOUS IDLE" }),
        '\u{0017}' => Some(ControlCode { code: "ETB", name: "END OF TRANSMISSION BLOCK" }),
        '\u{0018}' => Some(ControlCode { code: "CAN", name: "CANCEL" }),
        '\u{0019}' => Some(ControlCode { code: "EM", name: "END OF MEDIUM" }),
        '\u{001A}' => Some(ControlCode { code: "SUB", name: "SUBSTITUTE" }),
        '\u{001B}' => Some(ControlCode { code: "ESC", name: "ESCAPE" }),
        '\u{001C}' => Some(ControlCode { code: "FS", name: "INFORMATION SEPARATOR FOUR" }),
        '\u{001D}' => Some(ControlCode { code: "GS", name: "INFORMATION SEPARATOR THREE" }),
        '\u{001E}' => Some(ControlCode { code: "RS", name: "INFORMATION SEPARATOR TWO" }),
        '\u{001F}' => Some(ControlCode { code: "US", name: "INFORMATION SEPARATOR ONE" }),
        '\u{007F}' => Some(ControlCode { code: "DEL", name: "DELETE" }),

        // Block: Latin-1 Supplement
        '\u{0080}' => Some(ControlCode { code: "PAD", name: "PADDING CHARACTER" }),
        '\u{0081}' => Some(ControlCode { code: "HOP", name: "HIGH OCTET PRESET" }),
        '\u{0082}' => Some(ControlCode { code: "BPH", name: "BREAK PERMITTED HERE" }),
        '\u{0083}' => Some(ControlCode { code: "NBH", name: "NO BREAK HERE" }),
        '\u{0084}' => Some(ControlCode { code: "IND", name: "INDEX" }),
        '\u{0085}' => Some(ControlCode { code: "NEL", name: "NEXT LINE" }),
        '\u{0086}' => Some(ControlCode { code: "SSA", name: "START OF SELECTED AREA" }),
        '\u{0087}' => Some(ControlCode { code: "ESA", name: "END OF SELECTED AREA" }),
        '\u{0088}' => Some(ControlCode { code: "HTS", name: "CHARACTER TABULATION SET" }),
        '\u{0089}' => Some(ControlCode { code: "HTJ", name: "CHARACTER TABULATION WITH JUSTIFICATION" }),
        '\u{008A}' => Some(ControlCode { code: "VTS", name: "VERTICAL TABULATION SET" }),
        '\u{008B}' => Some(ControlCode { code: "PLD", name: "PARTIAL LINE FORWARD" }),
        '\u{008C}' => Some(ControlCode { code: "PLU", name: "PARTIAL LINE BACKWARD" }),
        '\u{008D}' => Some(ControlCode { code: "RI", name: "REVERSE LINE FEED" }),
        '\u{008E}' => Some(ControlCode { code: "SS2", name: "SINGLE SHIFT TWO" }),
        '\u{008F}' => Some(ControlCode { code: "SS3", name: "SINGLE SHIFT THREE" }),
        '\u{0090}' => Some(ControlCode { code: "DCS", name: "DEVICE CONTROL STRING" }),
        '\u{0091}' => Some(ControlCode { code: "PU1", name: "PRIVATE USE ONE" }),
        '\u{0092}' => Some(ControlCode { code: "PU2", name: "PRIVATE USE TWO" }),
        '\u{0093}' => Some(ControlCode { code: "STS", name: "SET TRANSMIT STATE" }),
        '\u{0094}' => Some(ControlCode { code: "CCH", name: "CANCEL CHARACTER" }),
        '\u{0095}' => Some(ControlCode { code: "MW", name: "MESSAGE WAITING" }),
        '\u{0096}' => Some(ControlCode { code: "SPA", name: "START OF GUARDED AREA" }),
        '\u{0097}' => Some(ControlCode { code: "EPA", name: "END OF GUARDED AREA" }),
        '\u{0098}' => Some(ControlCode { code: "SOS", name: "START OF STRING" }),
        '\u{0099}' => Some(ControlCode { code: "SGC", name: "SINGLE GRAPHIC CHARACTER INTRODUCER" }),
        '\u{009A}' => Some(ControlCode { code: "SCI", name: "SINGLE CHARACTER INTRODUCER" }),
        '\u{009B}' => Some(ControlCode { code: "CSI", name: "CONTROL SEQUENCE INTRODUCER" }),
        '\u{009C}' => Some(ControlCode { code: "ST", name: "STRING TERMINATOR" }),
        '\u{009D}' => Some(ControlCode { code: "OSC", name: "OPERATING SYSTEM COMMAND" }),
        '\u{009E}' => Some(ControlCode { code: "PM", name: "PRIVACY MESSAGE" }),
        '\u{009F}' => Some(ControlCode { code: "APC", name: "APPLICATION PROGRAM COMMAND" }),
        '\u{00AD}' => Some(ControlCode { code: "SHY", name: "SOFT HYPHEN" }),

        // Block: Combining Diacritical Marks
        '\u{034F}' => Some(ControlCode { code: "CGJ", name: "COMBINING GRAPHEME JOINER" }),

        // Block: Arabic
        '\u{061C}' => Some(ControlCode { code: "ALM", name: "ARABIC LETTER MARK" }),

        // Block: General Punctuation
        '\u{200B}' => Some(ControlCode { code: "ZWSP", name: "ZERO WIDTH SPACE" }),
        '\u{200C}' => Some(ControlCode { code: "ZWNJ", name: "ZERO WIDTH NON-JOINER" }),
        '\u{200D}' => Some(ControlCode { code: "ZWJ", name: "ZERO WIDTH JOINER" }),
        '\u{200E}' => Some(ControlCode { code: "LRM", name: "LEFT-TO-RIGHT MARK" }),
        '\u{200F}' => Some(ControlCode { code: "RLM", name: "RIGHT-TO-LEFT MARK" }),
        '\u{2028}' => Some(ControlCode { code: "LS", name: "LINE SEPARATOR" }),
        '\u{2029}' => Some(ControlCode { code: "PS", name: "PARAGRAPH SEPARATOR" }),
        '\u{202A}' => Some(ControlCode { code: "LRE", name: "LEFT-TO-RIGHT EMBEDDING" }),
        '\u{202D}' => Some(ControlCode { code: "LRO", name: "LEFT-TO-RIGHT OVERRIDE" }),
        '\u{202B}' => Some(ControlCode { code: "RLE", name: "RIGHT-TO-LEFT EMBEDDING" }),
        '\u{202E}' => Some(ControlCode { code: "RLO", name: "RIGHT-TO-LEFT OVERRIDE" }),
        '\u{202C}' => Some(ControlCode { code: "PDF", name: "POP DIRECTIONAL FORMATTING" }),
        '\u{2060}' => Some(ControlCode { code: "WJ", name: "WORD JOINER" }),
        '\u{2066}' => Some(ControlCode { code: "LRI", name: "LEFT-TO-RIGHT ISOLATE" }),
        '\u{2067}' => Some(ControlCode { code: "RLI", name: "RIGHT-TO-LEFT ISOLATE" }),
        '\u{2068}' => Some(ControlCode { code: "FSI", name: "FIRST STRONG ISOLATE" }),
        '\u{2069}' => Some(ControlCode { code: "PDI", name: "POP DIRECTIONAL ISOLATE" }),

        // Block: Variation Selectors
        '\u{FE00}' => Some(ControlCode { code: "VS1", name: "VARIATION SELECTOR-1" }),
        '\u{FE01}' => Some(ControlCode { code: "VS2", name: "VARIATION SELECTOR-2" }),
        '\u{FE02}' => Some(ControlCode { code: "VS3", name: "VARIATION SELECTOR-3" }),
        '\u{FE03}' => Some(ControlCode { code: "VS4", name: "VARIATION SELECTOR-4" }),
        '\u{FE04}' => Some(ControlCode { code: "VS5", name: "VARIATION SELECTOR-5" }),
        '\u{FE05}' => Some(ControlCode { code: "VS6", name: "VARIATION SELECTOR-6" }),
        '\u{FE06}' => Some(ControlCode { code: "VS7", name: "VARIATION SELECTOR-7" }),
        '\u{FE07}' => Some(ControlCode { code: "VS8", name: "VARIATION SELECTOR-8" }),
        '\u{FE08}' => Some(ControlCode { code: "VS9", name: "VARIATION SELECTOR-9" }),
        '\u{FE09}' => Some(ControlCode { code: "VS10", name: "VARIATION SELECTOR-10" }),
        '\u{FE0A}' => Some(ControlCode { code: "VS11", name: "VARIATION SELECTOR-11" }),
        '\u{FE0B}' => Some(ControlCode { code: "VS12", name: "VARIATION SELECTOR-12" }),
        '\u{FE0C}' => Some(ControlCode { code: "VS13", name: "VARIATION SELECTOR-13" }),
        '\u{FE0D}' => Some(ControlCode { code: "VS14", name: "VARIATION SELECTOR-14" }),
        '\u{FE0E}' => Some(ControlCode { code: "VS15", name: "VARIATION SELECTOR-15" }),
        '\u{FE0F}' => Some(ControlCode { code: "VS16", name: "VARIATION SELECTOR-16" }),

        // Block: Arabic Presentation Forms-B
        '\u{FEFF}' => Some(ControlCode { code: "BOM", name: "BYTE ORDER MARK" }),

        // Block: Specials
        '\u{FFF9}' => Some(ControlCode { code: "IAA", name: "INTERLINEAR ANNOTATION ANCHOR" }),
        '\u{FFFA}' => Some(ControlCode { code: "IAS", name: "INTERLINEAR ANNOTATION SEPARATOR" }),
        '\u{FFFB}' => Some(ControlCode { code: "IAT", name: "INTERLINEAR ANNOTATION TERMINATOR" }),
        _ => None,
    }
}

fn double_diacritic(c: char) -> (r: bool)
    ensures
        r == is_double_diacritic(c),
{
    matches!(
        c,
        '\u{035C}' | '\u{035D}' | '\u{035E}' | '\u{035F}' | '\u{0360}' | '\u{0361}' | '\u{0362}'
            | '\u{1DCD}' | '\u{1DFC}'
    )
}

impl UnicodeCharacter for char {
    type Name = CharName;

    fn name(&self) -> (r: Option<CharName>)
        ensures
            match r {
                Some(n) => unicode_name(*self) == Some(n@),
                None => unicode_name(*self) is None,
            },
    {
        match lookup_name(*self) {
            Some(s) => Some(CharName(s)),
            None => None,
        }
    }

    fn width(&self) -> (r: usize)
        ensures
            r == display_width(*self),
            r <= 3,
    {
        match column_width_of(*self) {
            Some(w) => w,
            None => 0,
        }
    }

    fn control_code(&self) -> (r: Option<ControlCode>)
        ensures
            r == control_code_of(*self),
    {
        match *self {
            // Block: Basic Latin
            '\u{0000}' => Some(ControlCode { code: "NUL", name: "NULL" }),
            '\u{0001}' => Some(ControlCode { code: "SOH", name: "START OF HEADING" }),
            '\u{0002}' => Some(ControlCode { code: "STX", name: "START OF TEXT" }),
            '\u{0003}' => Some(ControlCode { code: "ETX", name: "END OF TEXT" }),
            '\u{0004}' => Some(ControlCode { code: "EOT", name: "END OF TRANSMISSION" }),
            '\u{0005}' => Some(ControlCode { code: "ENQ", name: "ENQUIRY" }),
            '\u{0006}' => Some(ControlCode { code: "ACK", name: "ACKNOWLEDGE" }),
            '\u{0007}' => Some(ControlCode { code: "BEL", name: "ALERT" }),
            '\u{0008}' => Some(ControlCode { code: "BS", name: "BACKSPACE" }),
            '\u{0009}' => Some(ControlCode { code: "HT", name: "CHARACTER TABULATION" }),
            '\u{000A}' => Some(ControlCode { code: "LF", name: "LINE FEED" }),
            '\u{000B}' => Some(ControlCode { code: "VT", name: "LINE TABULATION" }),
            '\u{000C}' => Some(ControlCode { code: "FF", name: "FORM FEED" }),
            '\u{000D}' => Some(ControlCode { code: "CR", name: "CARRIAGE RETURN" }),
            '\u{000E}' => Some(ControlCode { code: "SO", name: "SHIFT OUT" }),
            '\u{000F}' => Some(ControlCode { code: "SI", name: "SHIFT IN" }),
            '\u{0010}' => Some(ControlCode { code: "DLE", name: "DATA LINK ESCAPE" }),
            '\u{0011}' => Some(ControlCode { code: "DC1", name: "DEVICE CONTROL 1" }),
            '\u{0012}' => Some(ControlCode { code: "DC2", name: "DEVICE CONTROL 2" }),
            '\u{0013}' => Some(ControlCode { code: "DC3", name: "DEVICE CONTROL 3" }),
            '\u{0014}' => Some(ControlCode { code: "DC4", name: "DEVICE CONTROL 4" }),
            '\u{0015}' => Some(ControlCode { code: "NAK", name: "NEGATIVE ACKNOWLEDGE" }),
            '\u{0016}' => Some(ControlCode { code: "SYN", name: "SYNCHRONOUS IDLE" }),
            '\u{0017}' => Some(ControlCode { code: "ETB", name: "END OF TRANSMISSION BLOCK" }),
            '\u{0018}' => Some(ControlCode { code: "CAN", name: "CANCEL" }),
            '\u{0019}' => Some(ControlCode { code: "EM", name: "END OF MEDIUM" }),
            '\u{001A}' => Some(ControlCode { code: "SUB", name: "SUBSTITUTE" }),
            '\u{001B}' => Some(ControlCode { code: "ESC", name: "ESCAPE" }),
            '\u{001C}' => Some(ControlCode { code: "FS", name: "INFORMATION SEPARATOR FOUR" }),
            '\u{001D}' => Some(ControlCode { code: "GS", name: "INFORMATION SEPARATOR THREE" }),
            '\u{001E}' => Some(ControlCode { code: "RS", name: "INFORMATION SEPARATOR TWO" }),
            '\u{001F}' => Some(ControlCode { code: "US", name: "INFORMATION SEPARATOR ONE" }),
            '\u{007F}' => Some(ControlCode { code: "DEL", name: "DELETE" }),

            // Block: Latin-1 Supplement
            '\u{0080}' => Some(ControlCode { code: "PAD", name: "PADDING CHARACTER" }),
            '\u{0081}' => Some(ControlCode { code: "HOP", name: "HIGH OCTET PRESET" }),
            '\u{0082}' => Some(ControlCode { code: "BPH", name: "BREAK PERMITTED HERE" }),
            '\u{0083}' => Some(ControlCode { code: "NBH", name: "NO BREAK HERE" }),
            '\u{0084}' => Some(ControlCode { code: "IND", name: "INDEX" }),
            '\u{0085}' => Some(ControlCode { code: "NEL", name: "NEXT LINE" }),
            '\u{0086}' => Some(ControlCode { code: "SSA", name: "START OF SELECTED AREA" }),
            '\u{0087}' => Some(ControlCode { code: "ESA", name: "END OF SELECTED AREA" }),
            '\u{0088}' => Some(ControlCode { code: "HTS", name: "CHARACTER TABULATION SET" }),
            '\u{0089}' => Some(ControlCode { code: "HTJ", name: "CHARACTER TABULATION WITH JUSTIFICATION" }),
            '\u{008A}' => Some(ControlCode { code: "VTS", name: "VERTICAL TABULATION SET" }),
            '\u{008B}' => Some(ControlCode { code: "PLD", name: "PARTIAL LINE FORWARD" }),
            '\u{008C}' => Some(ControlCode { code: "PLU", name: "PARTIAL LINE BACKWARD" }),
            '\u{008D}' => Some(ControlCode { code: "RI", name: "REVERSE LINE FEED" }),
            '\u{008E}' => Some(ControlCode { code: "SS2", name: "SINGLE SHIFT TWO" }),
            '\u{008F}' => Some(ControlCode { code: "SS3", name: "SINGLE SHIFT THREE" }),
            '\u{0090}' => Some(ControlCode { code: "DCS", name: "DEVICE CONTROL STRING" }),
            '\u{0091}' => Some(ControlCode { code: "PU1", name: "PRIVATE USE ONE" }),
            '\u{0092}' => Some(ControlCode { code: "PU2", name: "PRIVATE USE TWO" }),
            '\u{0093}' => Some(ControlCode { code: "STS", name: "SET TRANSMIT STATE" }),
            '\u{0094}' => Some(ControlCode { code: "CCH", name: "CANCEL CHARACTER" }),
            '\u{0095}' => Some(ControlCode { code: "MW", name: "MESSAGE WAITING" }),
            '\u{0096}' => Some(ControlCode { code: "SPA", name: "START OF GUARDED AREA" }),
            '\u{0097}' => Some(ControlCode { code: "EPA", name: "END OF GUARDED AREA" }),
            '\u{0098}' => Some(ControlCode { code: "SOS", name: "START OF STRING" }),
            '\u{0099}' => Some(ControlCode { code: "SGC", name: "SINGLE GRAPHIC CHARACTER INTRODUCER" }),
            '\u{009A}' => Some(ControlCode { code: "SCI", name: "SINGLE CHARACTER INTRODUCER" }),
            '\u{009B}' => Some(ControlCode { code: "CSI", name: "CONTROL SEQUENCE INTRODUCER" }),
            '\u{009C}' => Some(ControlCode { code: "ST", name: "STRING TERMINATOR" }),
            '\u{009D}' => Some(ControlCode { code: "OSC", name: "OPERATING SYSTEM COMMAND" }),
            '\u{009E}' => Some(ControlCode { code: "PM", name: "PRIVACY MESSAGE" }),
            '\u{009F}' => Some(ControlCode { code: "APC", name: "APPLICATION PROGRAM COMMAND" }),
            '\u{00AD}' => Some(ControlCode { code: "SHY", name: "SOFT HYPHEN" }),

            // Block: Combining Diacritical Marks
            '\u{034F}' => Some(ControlCode { code: "CGJ", name: "COMBINING GRAPHEME JOINER" }),

            // Block: Arabic
            '\u{061C}' => Some(ControlCode { code: "ALM", name: "ARABIC LETTER MARK" }),

            // Block: General Punctuation
            '\u{200B}' => Some(ControlCode { code: "ZWSP", name: "ZERO WIDTH SPACE" }),
            '\u{200C}' => Some(ControlCode { code: "ZWNJ", name: "ZERO WIDTH NON-JOINER" }),
            '\u{200D}' => Some(ControlCode { code: "ZWJ", name: "ZERO WIDTH JOINER" }),
            '\u{200E}' => Some(ControlCode { code: "LRM", name: "LEFT-TO-RIGHT MARK" }),
            '\u{200F}' => Some(ControlCode { code: "RLM", name: "RIGHT-TO-LEFT MARK" }),
            '\u{2028}' => Some(ControlCode { code: "LS", name: "LINE SEPARATOR" }),
            '\u{2029}' => Some(ControlCode { code: "PS", name: "PARAGRAPH SEPARATOR" }),
            '\u{202A}' => Some(ControlCode { code: "LRE", name: "LEFT-TO-RIGHT EMBEDDING" }),
            '\u{202D}' => Some(ControlCode { code: "LRO", name: "LEFT-TO-RIGHT OVERRIDE" }),
            '\u{202B}' => Some(ControlCode { code: "RLE", name: "RIGHT-TO-LEFT EMBEDDING" }),
            '\u{202E}' => Some(ControlCode { code: "RLO", name: "RIGHT-TO-LEFT OVERRIDE" }),
            '\u{202C}' => Some(ControlCode { code: "PDF", name: "POP DIRECTIONAL FORMATTING" }),
            '\u{2060}' => Some(ControlCode { code: "WJ", name: "WORD JOINER" }),
            '\u{2066}' => Some(ControlCode { code: "LRI", name: "LEFT-TO-RIGHT ISOLATE" }),
            '\u{2067}' => Some(ControlCode { code: "RLI", name: "RIGHT-TO-LEFT ISOLATE" }),
            '\u{2068}' => Some(ControlCode { code: "FSI", name: "FIRST STRONG ISOLATE" }),
            '\u{2069}' => Some(ControlCode { code: "PDI", name: "POP DIRECTIONAL ISOLATE" }),

            // Block: Variation Selectors
            '\u{FE00}' => Some(ControlCode { code: "VS1", name: "VARIATION SELECTOR-1" }),
            '\u{FE01}' => Some(ControlCode { code: "VS2", name: "VARIATION SELECTOR-2" }),
            '\u{FE02}' => Some(ControlCode { code: "VS3", name: "VARIATION SELECTOR-3" }),
            '\u{FE03}' => Some(ControlCode { code: "VS4", name: "VARIATION SELECTOR-4" }),
            '\u{FE04}' => Some(ControlCode { code: "VS5", name: "VARIATION SELECTOR-5" }),
            '\u{FE05}' => Some(ControlCode { code: "VS6", name: "VARIATION SELECTOR-6" }),
            '\u{FE06}' => Some(ControlCode { code: "VS7", name: "VARIATION SELECTOR-7" }),
            '\u{FE07}' => Some(ControlCode { code: "VS8", name: "VARIATION SELECTOR-8" }),
            '\u{FE08}' => Some(ControlCode { code: "VS9", name: "VARIATION SELECTOR-9" }),
            '\u{FE09}' => Some(ControlCode { code: "VS10", name: "VARIATION SELECTOR-10" }),
            '\u{FE0A}' => Some(ControlCode { code: "VS11", name: "VARIATION SELECTOR-11" }),
            '\u{FE0B}' => Some(ControlCode { code: "VS12", name: "VARIATION SELECTOR-12" }),
            '\u{FE0C}' => Some(ControlCode { code: "VS13", name: "VARIATION SELECTOR-13" }),
            '\u{FE0D}' => Some(ControlCode { code: "VS14", name: "VARIATION SELECTOR-14" }),
            '\u{FE0E}' => Some(ControlCode { code: "VS15", name: "VARIATION SELECTOR-15" }),
            '\u{FE0F}' => Some(ControlCode { code: "VS16", name: "VARIATION SELECTOR-16" }),

            // Block: Arabic Presentation Forms-B
            '\u{FEFF}' => Some(ControlCode { code: "BOM", name: "BYTE ORDER MARK" }),

            // Block: Specials
            '\u{FFF9}' => Some(ControlCode { code: "IAA", name: "INTERLINEAR ANNOTATION ANCHOR" }),
            '\u{FFFA}' => Some(ControlCode { code: "IAS", name: "INTERLINEAR ANNOTATION SEPARATOR" }),
            '\u{FFFB}' => Some(ControlCode { code: "IAT", name: "INTERLINEAR ANNOTATION TERMINATOR" }),
            _ => None,
        }
    }

    fn diacritic(&self) -> (r: Diacritic)
        ensures
            r == diacritic_of(*self),
    {
        if !grapheme_extend(*self) {
            Diacritic::No
        } else if double_diacritic(*self) {
            Diacritic::Double
        } else {
            Diacritic::Single
        }
    }

    fn direction(&self) -> (r: Direction)
        ensures
            r == direction_of(*self),
    {
        let k = bidi_class(*self);
        if k == BIDI_LEFT_TO_RIGHT {
            Direction::LeftToRight
        } else if k == BIDI_RIGHT_TO_LEFT || k == BIDI_ARABIC_LETTER || k
            == BIDI_RIGHT_TO_LEFT_EMBEDDING || k == BIDI_RIGHT_TO_LEFT_OVERRIDE || k
            == BIDI_RIGHT_TO_LEFT_ISOLATE {
            Direction::RightToLeft
        } else {
            Direction::Neutral
        }
    }
}

} // verus!
