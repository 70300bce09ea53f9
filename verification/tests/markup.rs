use libchordr::chord::Chords;
use libchordr::convert_to_format;
use libchordr::converter::html::{class_name_for_type, HtmlConverter, Tag, TagProvider};
use libchordr::format::{Format, Formatting};
use libchordr::metadata::MetaInformation;
use libchordr::node::{Node, SectionType};
use libchordr::token::{Modifier, Token};

// A standalone chord renders as a column whose text row holds the blank
// placeholder and whose chord row carries the machine-readable chord.
#[test]
fn markup_column_for_standalone_chord() {
    let provider = TagProvider::new();
    let node = Node::ChordStandalone(Chords::parse("D"));
    let tag = provider.build_tag_for_node(&node).unwrap();
    assert_eq!(
        tag.to_html_string(),
        "<div class='col'><div class='chord-row'>\
         <span class='chordr-chord' data-chord='D'>D</span></div>\
         <div class='text-row'>&nbsp;</div></div>"
    );
}

#[test]
fn markup_column_for_chord_text_pair() {
    let provider = TagProvider::new();
    let node = Node::chord_text_pair("Bb", "low").unwrap();
    let tag = provider.build_tag_for_node(&node).unwrap();
    assert_eq!(
        tag.to_html_string(),
        "<div class='col'><div class='chord-row'>\
         <span class='chordr-chord' data-chord='Bb'>Bb</span></div>\
         <div class='text-row'><span>low</span></div></div>"
    );
}

#[test]
fn markup_text_without_chord_gets_placeholder_chord_row() {
    let provider = TagProvider::new();
    let node = Node::text("la la");
    let tag = provider.build_tag_for_node(&node).unwrap();
    assert_eq!(
        tag.to_html_string(),
        "<div class='col'><div class='chord-row'>&nbsp;</div>\
         <div class='text-row'><span>la la</span></div></div>"
    );
}

#[test]
fn markup_headline_and_section_class() {
    let provider = TagProvider::new();
    let section = Node::section(2, "Chorus", Modifier::Chorus, vec![]);
    let tag = provider.build_tag_for_node(&section).unwrap();
    assert_eq!(
        tag.to_html_string(),
        "<section class='chorus'><h2>Chorus</h2></section>"
    );

    let plain = Node::section(3, "Verse", Modifier::Plain, vec![]);
    let tag = provider.build_tag_for_node(&plain).unwrap();
    assert_eq!(tag.to_html_string(), "<section><h3>Verse</h3></section>");
}

#[test]
fn markup_quote_and_newline() {
    let provider = TagProvider::new();
    let quote = provider.build_tag_for_node(&Node::quote("Play slowly")).unwrap();
    assert_eq!(quote.to_html_string(), "<blockquote>Play slowly</blockquote>");

    let rule = provider.build_tag_for_node(&Node::Newline).unwrap();
    assert_eq!(rule.to_html_string(), "<hr/>\n");

    let brk = provider.build_tag_for_token(&Token::Newline).unwrap();
    assert_eq!(brk.to_html_string(), "<br/>\n");
}

#[test]
fn markup_inline_metadata() {
    let provider = TagProvider::new();
    let node = Node::meta("Artist: Me").unwrap();
    let tag = provider.build_tag_for_node(&node).unwrap();
    assert_eq!(
        tag.to_html_string(),
        "<span class='meta-keyword'>Artist:</span> <span class='meta-value'>Me</span>"
    );
}

#[test]
fn markup_refuses_meta_token_in_text_position() {
    let provider = TagProvider::new();
    let meta = match Node::meta("Artist: Me").unwrap() {
        Node::Meta(m) => m,
        _ => unreachable!(),
    };
    let node = Node::Text(Token::Meta(meta));
    assert!(provider.build_tag_for_node(&node).is_err());
}

#[test]
fn markup_document_wrapper() {
    let converter = HtmlConverter {};
    let tokens = libchordr::tokenizer::tokenize("Swing [D]low");
    let document = libchordr::parser::parse(&tokens);
    let html = converter
        .convert(
            &document,
            &MetaInformation::default(),
            Formatting::with_format(Format::Html),
        )
        .unwrap();
    assert_eq!(
        html,
        "<div id='chordr-song'><section>\
         <div class='col'><div class='chord-row'>&nbsp;</div>\
         <div class='text-row'><span>Swing </span></div></div>\
         <div class='col'><div class='chord-row'>\
         <span class='chordr-chord' data-chord='D'>D</span></div>\
         <div class='text-row'><span>low</span></div></div>\
         </section></div>"
    );
}

#[test]
fn convert_to_format_html_entry_point() {
    let out = convert_to_format(
        "[D]",
        &MetaInformation::default(),
        Formatting::with_format(Format::Html),
    )
    .unwrap();
    assert!(out.starts_with("<div id='chordr-song'>"));
    assert!(out.contains("data-chord='D'"));
}

#[test]
fn tag_blank_and_raw() {
    assert!(Tag::blank().is_blank());
    assert_eq!(Tag::blank().to_html_string(), "");
    let raw = Tag::raw("<b>x</b>".to_string());
    assert!(!raw.is_blank());
    assert_eq!(raw.to_html_string(), "<b>x</b>");
    assert_eq!(Tag::with_name("hr").to_html_string(), "<hr/>");
}

#[test]
fn class_names_for_section_types() {
    assert_eq!(class_name_for_type(&SectionType::Chorus), Some("chorus"));
    assert_eq!(class_name_for_type(&SectionType::Bridge), Some("bridge"));
    assert_eq!(class_name_for_type(&SectionType::Unknown), None);
}
