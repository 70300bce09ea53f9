use vstd::prelude::*;
use crate::metadata::{opt_str_view, MetadataTrait, MetadataView, MetaInformation};
use crate::song::SongMeta;

verus! {

/// How many attributes the iterator walks.
pub const FIELDS_LEN: usize = 13;

/// The display keyword of the attribute at a position.
pub open spec fn field_keyword(i: int) -> Seq<char> {
    if i == 0 {
        "Title"@
    } else if i == 1 {
        "Subtitle"@
    } else if i == 2 {
        "Artist"@
    } else if i == 3 {
        "Composer"@
    } else if i == 4 {
        "Lyricist"@
    } else if i == 5 {
        "Copyright"@
    } else if i == 6 {
        "Album"@
    } else if i == 7 {
        "Year"@
    } else if i == 8 {
        "Key"@
    } else if i == 9 {
        "Time"@
    } else if i == 10 {
        "Tempo"@
    } else if i == 11 {
        "Duration"@
    } else {
        "Capo"@
    }
}

/// The attribute at a position.
pub open spec fn metadata_field(v: MetadataView, i: int) -> Option<Seq<char>> {
    if i == 0 {
        v.title
    } else if i == 1 {
        v.subtitle
    } else if i == 2 {
        v.artist
    } else if i == 3 {
        v.composer
    } else if i == 4 {
        v.lyricist
    } else if i == 5 {
        v.copyright
    } else if i == 6 {
        v.album
    } else if i == 7 {
        v.year
    } else if i == 8 {
        v.key
    } else if i == 9 {
        v.time
    } else if i == 10 {
        v.tempo
    } else if i == 11 {
        v.duration
    } else {
        v.capo
    }
}

/// One attribute as the iterator hands it out: the display keyword and
/// the value, if the attribute is present.
#[derive(Clone, Debug, PartialEq)]
pub struct MetadataIterItem {
    pub keyword: String,
    pub content: Option<String>,
}

/// Walks the attributes of an owned metadata value in display order.
pub struct MetadataIntoIterator<T: MetadataTrait> {
    metadata: T,
    fields_cursor: usize,
}

impl<T: MetadataTrait> MetadataIntoIterator<T> {
    /// Which attribute comes next.
    pub closed spec fn cursor(&self) -> int {
        self.fields_cursor as int
    }

    /// The attributes being walked.
    pub closed spec fn source(&self) -> MetadataView {
        self.metadata.metadata_view()
    }

    /// Start walking an owned metadata value.
    pub fn new(metadata: T) -> (r: Self)
        ensures
            r.cursor() == 0,
            r.source() == metadata.metadata_view(),
    {
        MetadataIntoIterator { metadata, fields_cursor: 0 }
    }

    /// The next attribute, in display order: its keyword and value.
    /// Exhausted after all attributes, present or not, were handed out.
    pub fn next(&mut self) -> (r: Option<MetadataIterItem>)
        ensures
            final(self).source() == old(self).source(),
            old(self).cursor() < FIELDS_LEN ==> {
                &&& final(self).cursor() == old(self).cursor() + 1
                &&& match r {
                    Some(item) => item.keyword@ == field_keyword(old(self).cursor())
                        && opt_str_view(item.content) == metadata_field(
                        old(self).source(),
                        old(self).cursor(),
                    ),
                    None => false,
                }
            },
            old(self).cursor() >= FIELDS_LEN ==> r is None && final(self).cursor() == old(self).cursor(),
    {
        proof {
            reveal_strlit("Title");
            reveal_strlit("Subtitle");
            reveal_strlit("Artist");
            reveal_strlit("Composer");
            reveal_strlit("Lyricist");
            reveal_strlit("Copyright");
            reveal_strlit("Album");
            reveal_strlit("Year");
            reveal_strlit("Key");
            reveal_strlit("Time");
            reveal_strlit("Tempo");
            reveal_strlit("Duration");
            reveal_strlit("Capo");
        }
        if self.fields_cursor >= FIELDS_LEN {
            return None;
        }
        let keyword: &str = match self.fields_cursor {
            0 => "Title",
            1 => "Subtitle",
            2 => "Artist",
            3 => "Composer",
            4 => "Lyricist",
            5 => "Copyright",
            6 => "Album",
            7 => "Year",
            8 => "Key",
            9 => "Time",
            10 => "Tempo",
            11 => "Duration",
            _ => "Capo",
        };
        let content = match self.fields_cursor {
            0 => self.metadata.title(),
            1 => self.metadata.subtitle(),
            2 => self.metadata.artist(),
            3 => self.metadata.composer(),
            4 => self.metadata.lyricist(),
            5 => self.metadata.copyright(),
            6 => self.metadata.album(),
            7 => self.metadata.year(),
            8 => self.metadata.key(),
            9 => self.metadata.time(),
            10 => self.metadata.tempo(),
            11 => self.metadata.duration(),
            _ => self.metadata.capo(),
        };
        self.fields_cursor = self.fields_cursor + 1;
        Some(MetadataIterItem { keyword: keyword.to_owned(), content })
    }
}

impl MetaInformation {
    /// Walk this metadata's attributes in display order.
    pub fn into_iter(self) -> (r: MetadataIntoIterator<MetaInformation>)
        ensures
            r.cursor() == 0,
            r.source() == self@,
    {
        MetadataIntoIterator::new(self)
    }
}

impl SongMeta {
    /// Walk this song's attributes in display order.
    pub fn into_iter(self) -> (r: MetadataIntoIterator<SongMeta>)
        ensures
            r.cursor() == 0,
            r.source() == self.metadata_view(),
    {
        MetadataIntoIterator::new(self)
    }
}

} // verus!
