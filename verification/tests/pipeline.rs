use libchordr::chord::{Chord, Chords, Note};
use libchordr::convert_to_format;
use libchordr::converter::chorddown::{cleanup_output, remove_double_blank_lines};
use libchordr::format::{Format, Formatting};
use libchordr::metadata::MetaInformation;
use libchordr::node::{Node, SectionType};
use libchordr::parser::parse;
use libchordr::scanner::scan;
use libchordr::token::{Lexeme, Token};
use libchordr::tokenizer::tokenize;

fn chorddown(text: &str) -> String {
    convert_to_format(
        text,
        &MetaInformation::default(),
        Formatting::with_format(Format::Chorddown),
    )
    .unwrap()
}

#[test]
fn scan_ends_with_single_eof() {
    let lexemes = scan("# A\n[D]x");
    assert_eq!(
        lexemes,
        vec![
            Lexeme::HeaderStart,
            Lexeme::Literal(" A".to_string()),
            Lexeme::Newline,
            Lexeme::ChordStart,
            Lexeme::Literal("D".to_string()),
            Lexeme::ChordEnd,
            Lexeme::Literal("x".to_string()),
            Lexeme::Eof,
        ]
    );
}

#[test]
fn tokenize_headline_with_modifier() {
    let tokens = tokenize("##! Chorus\n");
    assert_eq!(
        tokens,
        vec![
            Token::headline(2, "Chorus", libchordr::token::Modifier::Chorus),
            Token::Newline,
        ]
    );
}

// An unmatched chord delimiter never makes tokenization fail, and the
// line's trailing content is preserved.
#[test]
fn tokenize_unclosed_chord_keeps_content() {
    let tokens = tokenize("Hello [D world\nBye");
    assert_eq!(
        tokens,
        vec![
            Token::Literal("Hello ".to_string()),
            Token::Chord("D world".to_string()),
            Token::Newline,
            Token::Literal("Bye".to_string()),
        ]
    );
}

#[test]
fn tokenize_stray_chord_end_is_dropped() {
    let tokens = tokenize("a]b");
    assert_eq!(tokens, vec![Token::Literal("ab".to_string())]);
}

#[test]
fn parse_minimal_chord_text_pair() {
    let tokens = tokenize("Swing [D]low");
    let document = parse(&tokens);
    assert_eq!(
        document,
        Node::Document(vec![Node::Section {
            head: None,
            children: vec![
                Node::Text(Token::Literal("Swing ".to_string())),
                Node::ChordTextPair {
                    chords: Chords::Chord(Chord {
                        root: Note {
                            letter: libchordr::chord::NoteLetter::D,
                            accidental: libchordr::chord::Accidental::Natural,
                        },
                        quality: String::new(),
                        bass: None,
                    }),
                    text: Token::Literal("low".to_string()),
                },
            ],
            section_type: SectionType::Unknown,
        }])
    );
    assert_eq!(chorddown("Swing [D]low"), "Swing [D]low\n");
}

#[test]
fn parse_headline_opens_section() {
    let tokens = tokenize("## Chorus\nHello");
    let document = parse(&tokens);
    assert_eq!(
        document,
        Node::Document(vec![Node::Section {
            head: Some(Box::new(Node::Headline(Token::headline(
                2,
                "Chorus",
                libchordr::token::Modifier::Plain,
            )))),
            children: vec![
                Node::Newline,
                Node::Text(Token::Literal("Hello".to_string())),
            ],
            section_type: SectionType::Unknown,
        }])
    );
}

#[test]
fn parse_standalone_chord() {
    let tokens = tokenize("[D]\nx");
    let document = parse(&tokens);
    match &document {
        Node::Document(children) => match &children[0] {
            Node::Section { head, children, .. } => {
                assert!(head.is_none());
                assert!(matches!(children[0], Node::ChordStandalone(_)));
            },
            other => panic!("expected a section, got {:?}", other),
        },
        other => panic!("expected a document, got {:?}", other),
    }
}

// Converting already normalized output again yields the identical
// string: the output of the chorddown converter is a fixed point.
#[test]
fn round_trip_is_fixed_point() {
    let text = "# Great new song\nArtist: Me\n\n##! Chorus\nSwing [D]low, sweet [G]chari[D]ot.\n\n\n\n> Play slowly\n";
    let first = chorddown(text);
    let second = chorddown(first.as_str());
    let third = chorddown(second.as_str());
    assert_eq!(second, third);
    assert_eq!(first, second);
}

#[test]
fn round_trip_of_plain_line() {
    let first = chorddown("Swing [D]low");
    assert_eq!(first, "Swing [D]low\n");
    assert_eq!(chorddown(first.as_str()), first);
}

// The converter's output never contains a run of three line breaks.
#[test]
fn output_has_no_triple_newline() {
    let out = chorddown("A\n\n\n\n\nB\n\n\n");
    assert!(!out.contains("\n\n\n"));
    assert_eq!(out, "A\n\nB\n");
}

#[test]
fn collapse_blank_lines() {
    assert_eq!(remove_double_blank_lines("a\n\n\n\nb"), "a\n\nb");
    assert_eq!(remove_double_blank_lines("a\nb"), "a\nb");
}

#[test]
fn cleanup_trims_and_closes() {
    assert_eq!(cleanup_output("a  \n\n"), "a\n");
    assert_eq!(cleanup_output(""), "\n");
    assert_eq!(cleanup_output("a\n\n\nb"), "a\n\nb\n");
}

// A hand-built tree can place a token where it can never legally
// stand; the converter then fails closed instead of emitting output.
#[test]
fn chorddown_refuses_newline_token_in_text_position() {
    let converter = libchordr::converter::chorddown::ChorddownConverter {};
    let ast = Node::Text(Token::Newline);
    let result = converter.convert(
        &ast,
        &MetaInformation::default(),
        Formatting::with_format(Format::Chorddown),
    );
    assert_eq!(result, Err(libchordr::error::ConvertError::UnexpectedToken));
}

#[test]
fn metadata_block_round_trip() {
    let meta = MetaInformation {
        title: Some("Great new song".to_string()),
        artist: Some("Me".to_string()),
        year: Some("1865".to_string()),
        ..MetaInformation::default()
    };
    let out = convert_to_format("", &meta, Formatting::with_format(Format::Chorddown)).unwrap();
    assert!(out.starts_with("# Great new song\nArtist: Me\nYear: 1865"));
}
