use std::cmp::Ordering;

use unicode_analyze::decode::{decode_chunks, Chunk};
use unicode_analyze::{
    display_with, Codepoint, ControlCode, Diacritic, Direction, Grapheme, Text, UnicodeCharacter,
};

fn values(text: &Text) -> Vec<Result<char, u8>> {
    text.codepoints().iter().map(|c| c.value()).collect()
}

fn kind_name(c: char) -> String {
    Codepoint::from_valid(c).display_name()
}

#[test]
fn empty_input_is_empty_text() {
    assert_eq!(Text::parse_bytes(&[]).to_string(), "[]");
    assert_eq!(Text::parse_str("").to_string(), "[]");
    assert!(Text::parse_bytes(&[]).codepoints().is_empty());
    assert!(decode_chunks(&[]).is_empty());
}

#[test]
fn every_byte_is_accounted_for_in_order() {
    let bytes = [0x61, 0xE2, 0x82, 0x41, 0xC0, 0x80, 0xED, 0xA0, 0x80, 0xF0, 0x9F, 0x98, 0x80, 0xFF];
    let text = Text::parse_bytes(&bytes);
    assert_eq!(
        values(&text),
        vec![
            Ok('a'),
            Err(0xE2),
            Err(0x82),
            Ok('A'),
            Err(0xC0),
            Err(0x80),
            Err(0xED),
            Err(0xA0),
            Err(0x80),
            Ok('\u{1F600}'),
            Err(0xFF),
        ]
    );
    let mut rebuilt = Vec::new();
    for v in values(&text) {
        match v {
            Ok(c) => rebuilt.extend_from_slice(c.to_string().as_bytes()),
            Err(b) => rebuilt.push(b),
        }
    }
    assert_eq!(rebuilt, bytes.to_vec());
}

#[test]
fn truncated_sequence_at_end_is_invalid() {
    let text = Text::parse_bytes(&[0x41, 0xF0, 0x9F, 0x98]);
    assert_eq!(values(&text), vec![Ok('A'), Err(0xF0), Err(0x9F), Err(0x98)]);
    assert_eq!(text.to_string(), "['A', 0xF0, 0x9F, 0x98]");
}

#[test]
fn chunks_alternate_and_merge() {
    let chunks = decode_chunks(&[0x61, 0xFF, 0xFE, 0x62, 0x63]);
    assert_eq!(chunks.len(), 3);
    assert!(matches!(&chunks[0], Chunk::Valid(s) if s == "a"));
    assert!(matches!(&chunks[1], Chunk::Invalid(b) if b == &vec![0xFF, 0xFE]));
    assert!(matches!(&chunks[2], Chunk::Valid(s) if s == "bc"));
}

#[test]
fn invalid_bytes_are_single_clusters() {
    let text = Text::parse_bytes(&[0xFF, 0xFE]);
    assert_eq!(text.graphemes().len(), 2);
    assert_eq!(text.to_string(), "[0xFF, 0xFE]");
    let bytes_text = Text::parse_bytes("e\u{301}x".as_bytes());
    assert_eq!(bytes_text.graphemes().len(), 2);
    assert_eq!(bytes_text.to_string(), Text::parse_str("e\u{301}x").to_string());
}

#[test]
fn classification_is_deterministic() {
    for c in ['a', '\u{627}', '\u{35D}', '\n', '\u{FFFF}', '\u{E123}', '\u{80000}'] {
        let a = Codepoint::from_valid(c);
        let b = Codepoint::from_valid(c);
        assert!(a == b);
        assert_eq!(a.display_value(), b.display_value());
        assert_eq!(a.display_character(), b.display_character());
        assert_eq!(a.display_name(), b.display_name());
        assert_eq!(c.width(), c.width());
        assert_eq!(c.diacritic(), c.diacritic());
        assert_eq!(c.direction(), c.direction());
    }
}

#[test]
fn zero_width_character_renders_empty() {
    let invisible_times = Codepoint::from_valid('\u{2062}');
    assert_eq!('\u{2062}'.width(), 0);
    assert_eq!('\u{2062}'.diacritic(), Diacritic::No);
    assert_eq!(invisible_times.display_character(), "''");
    assert_eq!(invisible_times.display_name(), "INVISIBLE TIMES");
    assert_eq!(invisible_times.to_string(), "''");
}

#[test]
fn rendering_twice_is_identical() {
    let text = Text::parse_bytes(&[0x61, 0xCC, 0x81, 0xFF, 0xEF, 0xBF, 0xBF]);
    assert_eq!(text.to_string(), text.to_string());
    for cp in text.codepoints() {
        assert_eq!(cp.display_value(), cp.display_value());
        assert_eq!(cp.display_character(), cp.display_character());
        assert_eq!(cp.display_name(), cp.display_name());
        assert_eq!(cp.name(), cp.display_name());
    }
}

#[test]
fn double_diacritic_has_two_placeholders() {
    let text = Text::parse_str("o\u{35D}");
    assert_eq!(text.to_string(), "[['o' + '\u{25CC}\u{35D}\u{25CC}']]");
    assert_eq!('\u{35D}'.diacritic(), Diacritic::Double);
    assert_eq!('\u{301}'.diacritic(), Diacritic::Single);
    assert_eq!(Codepoint::from_valid('\u{301}').display_character(), "'\u{25CC}\u{301}'");
}

#[test]
fn right_to_left_letter_is_guarded() {
    let alef = Codepoint::from_valid('\u{5D0}');
    assert_eq!(alef.display_character(), "'\u{200E}\u{5D0}\u{200E}'");
    assert_ne!(alef.display_character(), "'\u{5D0}'");
    assert_eq!(alef.display_name(), "HEBREW LETTER ALEF");
}

#[test]
fn direction_collapse() {
    assert_eq!('a'.direction(), Direction::LeftToRight);
    assert_eq!('\u{5D0}'.direction(), Direction::RightToLeft);
    assert_eq!('\u{627}'.direction(), Direction::RightToLeft);
    assert_eq!('1'.direction(), Direction::Neutral);
    assert_eq!(' '.direction(), Direction::Neutral);
    assert_eq!('\u{202A}'.direction(), Direction::Neutral);
    assert_eq!('\u{202B}'.direction(), Direction::RightToLeft);
}

#[test]
fn noncharacter_boundaries() {
    assert_ne!(kind_name('\u{FDCF}'), "NOT A CHARACTER");
    assert_eq!(kind_name('\u{FDD0}'), "NOT A CHARACTER");
    assert_eq!(kind_name('\u{FDEF}'), "NOT A CHARACTER");
    assert_ne!(kind_name('\u{FDF0}'), "NOT A CHARACTER");
    assert_eq!(kind_name('\u{FFFD}'), "REPLACEMENT CHARACTER");
    assert_eq!(kind_name('\u{FFFE}'), "NOT A CHARACTER");
    assert_eq!(kind_name('\u{1FFFD}'), "UNKNOWN CHARACTER");
    assert_eq!(kind_name('\u{1FFFE}'), "NOT A CHARACTER");
    assert_eq!(kind_name('\u{10FFFF}'), "NOT A CHARACTER");
    assert_ne!(kind_name('\u{10000}'), "NOT A CHARACTER");
}

#[test]
fn private_use_boundaries() {
    assert_ne!(kind_name('\u{D7FF}'), "RESERVED FOR PRIVATE USE");
    assert_eq!(kind_name('\u{E000}'), "RESERVED FOR PRIVATE USE");
    assert_eq!(kind_name('\u{F8FF}'), "RESERVED FOR PRIVATE USE");
    assert_ne!(kind_name('\u{F900}'), "RESERVED FOR PRIVATE USE");
    assert_eq!(kind_name('\u{EFFFF}'), "NOT A CHARACTER");
    assert_eq!(kind_name('\u{F0000}'), "RESERVED FOR PRIVATE USE");
    assert_eq!(kind_name('\u{FFFFD}'), "RESERVED FOR PRIVATE USE");
    assert_eq!(Codepoint::from_valid('\u{E000}').display_character(), "\u{25A8}");
}

#[test]
fn value_formats() {
    assert_eq!(Codepoint::from_valid('A').display_value(), "U+0041");
    assert_eq!(Codepoint::from_valid('\u{FFFF}').display_value(), "U+FFFF");
    assert_eq!(Codepoint::from_valid('\u{10000}').display_value(), "U+010000");
    assert_eq!(Codepoint::from_valid('\u{10FFFD}').display_value(), "U+10FFFD");
    assert_eq!(Codepoint::from_invalid(0x0A).display_value(), "0x0A");
    assert_eq!(Codepoint::from_invalid(0xAB).display_value(), "0xAB");
}

#[test]
fn each_kind_renders_and_names() {
    let nonchar = Codepoint::from_valid('\u{FFFE}');
    assert_eq!(nonchar.display_character(), "\u{2205}");
    assert_eq!(nonchar.to_string(), "U+FFFE");
    let private = Codepoint::from_valid('\u{F0000}');
    assert_eq!(private.display_name(), "RESERVED FOR PRIVATE USE");
    assert_eq!(private.to_string(), "U+0F0000");
    let unknown = Codepoint::from_valid('\u{80000}');
    assert_eq!(unknown.display_character(), "?");
    let invalid = Codepoint::from_invalid(0xC3);
    assert_eq!(invalid.display_character(), "\u{FFFD}");
    assert_eq!(invalid.display_name(), "INVALID UTF-8");
    assert_eq!(invalid.value(), Err(0xC3));
    let lf = Codepoint::from_valid('\n');
    assert_eq!(lf.display_character(), "LF");
    assert_eq!(lf.display_name(), "LINE FEED");
    assert_eq!(lf.to_string(), "LF");
    assert_eq!(lf.value(), Ok('\n'));
}

#[test]
fn control_code_table() {
    assert_eq!('\n'.control_code(), Some(ControlCode { code: "LF", name: "LINE FEED" }));
    assert_eq!('\u{7F}'.control_code(), Some(ControlCode { code: "DEL", name: "DELETE" }));
    assert_eq!('\u{FEFF}'.control_code(), Some(ControlCode { code: "BOM", name: "BYTE ORDER MARK" }));
    assert_eq!('\u{FE0F}'.control_code().map(|c| c.code), Some("VS16"));
    assert_eq!('a'.control_code(), None);
    assert_eq!(Text::parse_str("a\u{200B}").to_string(), "['a', ZWSP]");
}

#[test]
fn widths_and_names_from_tables() {
    assert_eq!('a'.width(), 1);
    assert_eq!('\u{FF21}'.width(), 2);
    assert_eq!('\u{301}'.width(), 0);
    assert_eq!('\u{7}'.width(), 0);
    assert_eq!('a'.name().map(|n| n.as_str().to_string()), Some("LATIN SMALL LETTER A".to_string()));
    assert!('\u{80000}'.name().is_none());
}

#[test]
fn clusters_follow_segmentation() {
    let text = Text::parse_str("ab\r\n\u{1F1F7}\u{1F1FA}");
    assert_eq!(text.graphemes().len(), 4);
    assert_eq!(text.graphemes()[2].codepoints().len(), 2);
    assert_eq!(text.graphemes()[3].to_string(), "['\u{1F1F7}' + '\u{1F1FA}']");
    let g = Grapheme::from_valid("e\u{301}");
    assert_eq!(g.codepoints().len(), 2);
    assert_eq!(g.clone().into_codepoints().len(), 2);
    assert_eq!(Grapheme::from_invalid(0x80).to_string(), "0x80");
}

#[test]
fn owned_iteration_matches_borrowed() {
    let text = Text::parse_bytes(&[0x61, 0xCC, 0x81, 0xFF, 0x62]);
    let borrowed: Vec<Codepoint> = text.codepoints().into_iter().cloned().collect();
    let owned = text.clone().into_codepoints();
    assert_eq!(borrowed, owned);
    assert_eq!(owned.len(), 4);
    let graphemes = text.clone().into_graphemes();
    assert_eq!(graphemes.len(), 3);
    assert_eq!(graphemes, text.graphemes().to_vec());
}

#[test]
fn equality_and_order_by_value() {
    let a = Codepoint::from_valid('a');
    let z = Codepoint::from_valid('z');
    let byte = Codepoint::from_invalid(0x00);
    assert!(a == a.clone());
    assert!(a != z);
    assert_eq!(a.partial_cmp(&z), Some(Ordering::Less));
    assert_eq!(z.partial_cmp(&byte), Some(Ordering::Less));
    assert_eq!(byte.partial_cmp(&Codepoint::from_invalid(0xFF)), Some(Ordering::Less));
    assert!(Codepoint::from_invalid(7) == Codepoint::from_invalid(7));
}

#[test]
fn clusters_are_never_empty() {
    let text = Text::parse_bytes(&[0xFF, 0x61, 0xCC, 0x81, 0x0D, 0x0A, 0xE2, 0x82, 0xF0]);
    assert_eq!(text.graphemes().len(), 6);
    for g in text.graphemes() {
        assert!(!g.codepoints().is_empty());
    }
    for g in Text::parse_str("x\u{301}\u{302} y").graphemes() {
        assert!(!g.codepoints().is_empty());
    }
}

#[test]
fn display_with_starts_from_empty() {
    let rendered = display_with(|mut s: String| {
        s.push_str("U+");
        s.push('1');
        s
    });
    assert_eq!(rendered, "U+1");
}
