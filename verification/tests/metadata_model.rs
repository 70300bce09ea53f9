use libchordr::format::BNotation;
use libchordr::metadata::{MetaInformation, MetadataTrait};
use libchordr::metadata_iter::{MetadataIntoIterator, FIELDS_LEN};
use libchordr::song::{FileType, SongId, SongMeta};
use libchordr::token::Meta;
use libchordr::tokenizer::tokenize;

#[test]
fn meta_line_with_known_keyword() {
    let meta = Meta::try_from_str("Artist: The Fantastic Corns").unwrap();
    assert_eq!(meta.keyword, "Artist");
    assert_eq!(meta.content, "The Fantastic Corns");
}

#[test]
fn meta_line_trims_leading_blanks_of_value() {
    let meta = Meta::try_from_str("Capo:   2").unwrap();
    assert_eq!(meta.keyword, "Capo");
    assert_eq!(meta.content, "2");
}

#[test]
fn meta_line_with_unknown_keyword_is_rejected() {
    assert!(Meta::try_from_str("Title: nope").is_none());
    assert!(Meta::try_from_str("Producer: nope").is_none());
    assert!(Meta::try_from_str("no colon here").is_none());
}

#[test]
fn discover_metadata_from_tokens() {
    let tokens = tokenize("# Great new song\nArtist: Me\nYear: 1865\nHello");
    let meta = MetaInformation::from_tokens(&tokens);
    assert_eq!(meta.title, Some("Great new song".to_string()));
    assert_eq!(meta.artist, Some("Me".to_string()));
    assert_eq!(meta.year, Some("1865".to_string()));
    assert_eq!(meta.subtitle, None);
}

#[test]
fn discover_keeps_first_title() {
    let tokens = tokenize("# First\n# Second\n");
    let meta = MetaInformation::from_tokens(&tokens);
    assert_eq!(meta.title, Some("First".to_string()));
}

#[test]
fn default_metadata_is_empty() {
    let meta = MetaInformation::default();
    assert_eq!(meta.title(), None);
    assert_eq!(meta.capo(), None);
    assert_eq!(meta.b_notation(), BNotation::B);
}

#[test]
fn metadata_iterator_walks_fields_in_order() {
    let meta = MetaInformation {
        title: Some("T".to_string()),
        artist: Some("A".to_string()),
        ..MetaInformation::default()
    };
    let mut iter = meta.into_iter();
    let first = iter.next().unwrap();
    assert_eq!(first.keyword, "Title");
    assert_eq!(first.content, Some("T".to_string()));
    let second = iter.next().unwrap();
    assert_eq!(second.keyword, "Subtitle");
    assert_eq!(second.content, None);
    let third = iter.next().unwrap();
    assert_eq!(third.keyword, "Artist");
    assert_eq!(third.content, Some("A".to_string()));
    let mut count = 3;
    while iter.next().is_some() {
        count += 1;
    }
    assert_eq!(count, FIELDS_LEN);
}

#[test]
fn song_meta_new_has_no_attributes() {
    let song = SongMeta::new(
        SongId::new("great-new-song"),
        "Great new song".to_string(),
        FileType::Chorddown,
    );
    assert_eq!(song.id().as_str(), "great-new-song");
    assert_eq!(song.file_type(), FileType::Chorddown);
    assert_eq!(song.title(), Some("Great new song".to_string()));
    assert_eq!(song.artist(), None);
}

#[test]
fn song_meta_new_with_meta_information_copies_attributes() {
    let meta = MetaInformation {
        title: Some("ignored".to_string()),
        artist: Some("Me".to_string()),
        capo: Some("1".to_string()),
        ..MetaInformation::default()
    };
    let song = SongMeta::new_with_meta_information(
        SongId::new("id-1"),
        "Own title".to_string(),
        FileType::Chorddown,
        &meta,
    );
    assert_eq!(song.title(), Some("Own title".to_string()));
    assert_eq!(song.artist(), Some("Me".to_string()));
    assert_eq!(song.capo(), Some("1".to_string()));
    assert_eq!(song.composer(), None);
}

#[test]
fn song_meta_iterator_starts_with_title() {
    let song = SongMeta::new(
        SongId::new("id-2"),
        "Great new song".to_string(),
        FileType::Chorddown,
    );
    let mut iter: MetadataIntoIterator<SongMeta> = song.into_iter();
    let first = iter.next().unwrap();
    assert_eq!(first.keyword, "Title");
    assert_eq!(first.content, Some("Great new song".to_string()));
}

#[test]
fn assign_sets_field_by_keyword() {
    let mut meta = MetaInformation::default();
    meta.assign(&Meta::try_from_str("Tempo: 96").unwrap());
    assert_eq!(meta.tempo, Some("96".to_string()));
}
