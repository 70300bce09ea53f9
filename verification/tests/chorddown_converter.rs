use libchordr::converter::chorddown::ChorddownConverter;
use libchordr::format::{Format, Formatting};
use libchordr::metadata::MetaInformation;
use libchordr::node::Node;
use libchordr::token::Modifier;

fn get_test_metadata() -> MetaInformation {
    MetaInformation {
        title: Some("Great new song".to_string()),
        subtitle: Some("Originally known as 'Swing low sweet chariot'".to_string()),
        artist: Some("Me".to_string()),
        composer: Some("Wallace Willis".to_string()),
        lyricist: Some("Wallace Willis".to_string()),
        year: Some("1865".to_string()),
        capo: Some("1".to_string()),
        ..MetaInformation::default()
    }
}

fn get_test_ast() -> Node {
    Node::Document(vec![
        Node::section(
            1,
            "Swing Low Sweet Chariot",
            Modifier::Plain,
            vec![Node::newline()],
        ),
        Node::section(
            2,
            "Chorus",
            Modifier::Chorus,
            vec![
                Node::newline(),
                Node::text("Swing "),
                Node::chord_text_pair("D", "low, sweet ").unwrap(),
                Node::chord_text_pair("G", "chari").unwrap(),
                Node::chord_text_pair("D", "ot,").unwrap(),
                Node::newline(),
                Node::text("Comin’ for to carry me "),
                Node::chord_text_pair("A7", "home.").unwrap(),
                Node::newline(),
                Node::text("Swing "),
                Node::chord_text_pair("D7", "low, sweet ").unwrap(),
                Node::chord_text_pair("G", "chari").unwrap(),
                Node::chord_text_pair("D", "ot,").unwrap(),
                Node::newline(),
                Node::text("Comin’ for to "),
                Node::chord_text_pair("A7", "carry me ").unwrap(),
                Node::chord_text_pair("D", "home.").unwrap(),
                Node::newline(),
            ],
        ),
        Node::section(
            2,
            "Verse 1",
            Modifier::Plain,
            vec![
                Node::newline(),
                Node::text("I "),
                Node::chord_text_pair("D", "looked over Jordan, and ").unwrap(),
                Node::chord_text_pair("G", "what did I ").unwrap(),
                Node::chord_text_pair("D", "see,").unwrap(),
                Node::newline(),
                Node::text("Comin’ for to carry me "),
                Node::chord_text_pair("A7", "home.").unwrap(),
                Node::newline(),
                Node::text("A "),
                Node::chord_text_pair("D", "band of angels ").unwrap(),
                Node::chord_text_pair("G", "comin’ after ").unwrap(),
                Node::chord_text_pair("D", "me,").unwrap(),
                Node::newline(),
                Node::text("Comin’ for to "),
                Node::chord_text_pair("A7", "carry me ").unwrap(),
                Node::chord_text_pair("D", "home.").unwrap(),
                Node::newline(),
            ],
        ),
        Node::quote("Chorus"),
    ])
}

#[test]
fn test_convert() {
    let converter = ChorddownConverter {};
    let result = converter.convert(
        &get_test_ast(),
        &MetaInformation::default(),
        Formatting::with_format(Format::Chorddown),
    );

    assert!(result.is_ok());
    let source = result.unwrap();

    assert_eq!(
        source,
        //v-- The title is read from the parsed Meta Data. Here none was provided
        r"

##! Chorus
Swing [D]low, sweet [G]chari[D]ot,
Comin’ for to carry me [A7]home.
Swing [D7]low, sweet [G]chari[D]ot,
Comin’ for to [A7]carry me [D]home.

## Verse 1
I [D]looked over Jordan, and [G]what did I [D]see,
Comin’ for to carry me [A7]home.
A [D]band of angels [G]comin’ after [D]me,
Comin’ for to [A7]carry me [D]home.

> Chorus
"
    );
}

#[test]
fn test_convert_w_metadata() {
    let converter = ChorddownConverter {};
    let result = converter.convert(
        &get_test_ast(),
        &get_test_metadata(),
        Formatting::with_format(Format::Chorddown),
    );

    assert!(result.is_ok());
    let source = result.unwrap();

    assert_eq!(
        source,
        //v-- The title is read from the parsed Meta Data
        r#"# Great new song
Subtitle: Originally known as 'Swing low sweet chariot'
Artist: Me
Composer: Wallace Willis
Lyricist: Wallace Willis
Year: 1865
Capo: 1

##! Chorus
Swing [D]low, sweet [G]chari[D]ot,
Comin’ for to carry me [A7]home.
Swing [D7]low, sweet [G]chari[D]ot,
Comin’ for to [A7]carry me [D]home.

## Verse 1
I [D]looked over Jordan, and [G]what did I [D]see,
Comin’ for to carry me [A7]home.
A [D]band of angels [G]comin’ after [D]me,
Comin’ for to [A7]carry me [D]home.

> Chorus
"#
    );
}

#[test]
fn test_convert_w_inline_metadata() {
    let converter = ChorddownConverter {};
    let ast = Node::Document(vec![
        Node::section(
            1,
            "Swing Low Sweet Chariot",
            Modifier::Plain,
            vec![Node::newline()],
        ),
        Node::meta("Artist: The Fantastic Corns").unwrap(),
        Node::newline(),
        Node::meta("Composer: Daniel Corn").unwrap(),
        Node::newline(),
        Node::section(
            2,
            "Chorus",
            Modifier::Chorus,
            vec![
                Node::newline(),
                Node::text("Swing "),
                Node::chord_text_pair("D", "low, sweet ").unwrap(),
                Node::chord_text_pair("G", "chari").unwrap(),
                Node::chord_text_pair("D", "ot.").unwrap(),
            ],
        ),
    ]);
    let result = converter.convert(
        &ast,
        &get_test_metadata(),
        Formatting::with_format(Format::Chorddown),
    );

    assert!(result.is_ok());
    let source = result.unwrap();

    assert_eq!(
        source,
        //v-- The title is read from the parsed Meta Data
        r#"# Great new song
Subtitle: Originally known as 'Swing low sweet chariot'
Artist: Me
Composer: Wallace Willis
Lyricist: Wallace Willis
Year: 1865
Capo: 1

##! Chorus
Swing [D]low, sweet [G]chari[D]ot.
"#
    );
}

#[test]
fn test_convert_w_content_after_quote() {
    let converter = ChorddownConverter {};
    let ast = Node::Document(vec![
        Node::section(
            1,
            "Swing Low Sweet Chariot",
            Modifier::Plain,
            vec![Node::newline()],
        ),
        Node::quote("Play slowly"),
        Node::newline(),
        Node::section(
            2,
            "Chorus",
            Modifier::Chorus,
            vec![
                Node::newline(),
                Node::text("Swing "),
                Node::chord_text_pair("D", "low, sweet ").unwrap(),
                Node::chord_text_pair("G", "chari").unwrap(),
                Node::chord_text_pair("D", "ot.").unwrap(),
            ],
        ),
    ]);
    let result = converter.convert(
        &ast,
        &MetaInformation::default(),
        Formatting::with_format(Format::Chorddown),
    );

    assert!(result.is_ok());
    let source = result.unwrap();

    assert_eq!(
        source,
        //v-- The title is read from the parsed Meta Data
        r#"

> Play slowly

##! Chorus
Swing [D]low, sweet [G]chari[D]ot.
"#
    );
}
