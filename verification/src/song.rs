use vstd::prelude::*;
use crate::format::BNotation;
use crate::metadata::{opt_str_view, MetadataTrait, MetadataView};

verus! {

/// The identifier a song is stored and looked up under.
#[derive(Clone, Debug, PartialEq, Eq, Hash)]
pub struct SongId {
    value: String,
}

impl View for SongId {
    type V = Seq<char>;

    closed spec fn view(&self) -> Seq<char> {
        self.value@
    }
}

impl SongId {
    /// An identifier from its text.
    pub fn new(value: &str) -> (r: Self)
        ensures
            r@ == value@,
    {
        SongId { value: value.to_owned() }
    }

    /// The identifier's text.
    pub fn as_str(&self) -> (r: &str)
        ensures
            r@ == self@,
    {
        self.value.as_str()
    }
}

/// The stored format of a song's source.
#[derive(Clone, Copy, Debug, PartialEq, Eq, Structural)]
pub enum FileType {
    Chorddown,
}

/// A stored song's attributes: its identifier, title and source format,
/// and the optional song attributes.
#[derive(Clone, Debug, PartialEq)]
pub struct SongMeta {
    pub id: SongId,
    pub title: String,
    pub file_type: FileType,
    pub subtitle: Option<String>,
    pub artist: Option<String>,
    pub composer: Option<String>,
    pub lyricist: Option<String>,
    pub copyright: Option<String>,
    pub album: Option<String>,
    pub year: Option<String>,
    pub key: Option<String>,
    pub time: Option<String>,
    pub tempo: Option<String>,
    pub duration: Option<String>,
    pub capo: Option<String>,
}

impl SongMeta {
    /// A song entry with every optional attribute absent.
    pub fn new(id: SongId, title: String, file_type: FileType) -> (r: Self)
        ensures
            r.id@ == id@,
            r.title@ == title@,
            r.file_type == file_type,
            r.metadata_view() == (MetadataView {
                title: Some(title@),
                ..crate::metadata::empty_metadata()
            }),
    {
        let r = SongMeta {
            id,
            title,
            file_type,
            subtitle: None,
            artist: None,
            composer: None,
            lyricist: None,
            copyright: None,
            album: None,
            year: None,
            key: None,
            time: None,
            tempo: None,
            duration: None,
            capo: None,
        };
        proof {
            assert(r.metadata_view() =~~= (MetadataView {
                title: Some(r.title@),
                ..crate::metadata::empty_metadata()
            }));
        }
        r
    }

    /// A song entry that copies every optional attribute from the given
    /// metadata; the title and identifier are the caller's own.
    pub fn new_with_meta_information<M: MetadataTrait>(
        id: SongId,
        title: String,
        file_type: FileType,
        meta: &M,
    ) -> (r: Self)
        ensures
            r.id@ == id@,
            r.title@ == title@,
            r.file_type == file_type,
            r.metadata_view() == (MetadataView {
                title: Some(title@),
                b_notation: BNotation::B,
                ..meta.metadata_view()
            }),
    {
        let r = SongMeta {
            id,
            title,
            file_type,
            subtitle: meta.subtitle(),
            artist: meta.artist(),
            composer: meta.composer(),
            lyricist: meta.lyricist(),
            copyright: meta.copyright(),
            album: meta.album(),
            year: meta.year(),
            key: meta.key(),
            time: meta.time(),
            tempo: meta.tempo(),
            duration: meta.duration(),
            capo: meta.capo(),
        };
        proof {
            assert(r.metadata_view() =~~= (MetadataView {
                title: Some(r.title@),
                b_notation: BNotation::B,
                ..meta.metadata_view()
            }));
        }
        r
    }

    /// The song's identifier.
    pub fn id(&self) -> (r: &SongId)
        ensures
            r@ == self.id@,
    {
        &self.id
    }

    /// The song's source format.
    pub fn file_type(&self) -> (r: FileType)
        ensures
            r == self.file_type,
    {
        self.file_type
    }
}

impl MetadataTrait for SongMeta {
    open spec fn metadata_view(&self) -> MetadataView {
        MetadataView {
            title: Some(self.title@),
            subtitle: opt_str_view(self.subtitle),
            artist: opt_str_view(self.artist),
            composer: opt_str_view(self.composer),
            lyricist: opt_str_view(self.lyricist),
            copyright: opt_str_view(self.copyright),
            album: opt_str_view(self.album),
            year: opt_str_view(self.year),
            key: opt_str_view(self.key),
            time: opt_str_view(self.time),
            tempo: opt_str_view(self.tempo),
            duration: opt_str_view(self.duration),
            capo: opt_str_view(self.capo),
            b_notation: BNotation::B,
        }
    }

    fn title(&self) -> (r: Option<String>) {
        Some(self.title.clone())
    }

    fn subtitle(&self) -> (r: Option<String>) {
        match &self.subtitle {
            Some(s) => Some(s.clone()),
            None => None,
        }
    }

    fn artist(&self) -> (r: Option<String>) {
        match &self.artist {
            Some(s) => Some(s.clone()),
            None => None,
        }
    }

    fn composer(&self) -> (r: Option<String>) {
        match &self.composer {
            Some(s) => Some(s.clone()),
            None => None,
        }
    }

    fn lyricist(&self) -> (r: Option<String>) {
        match &self.lyricist {
            Some(s) => Some(s.clone()),
            None => None,
        }
    }

    fn copyright(&self) -> (r: Option<String>) {
        match &self.copyright {
            Some(s) => Some(s.clone()),
            None => None,
        }
    }

    fn album(&self) -> (r: Option<String>) {
        match &self.album {
            Some(s) => Some(s.clone()),
            None => None,
        }
    }

    fn year(&self) -> (r: Option<String>) {
        match &self.year {
            Some(s) => Some(s.clone()),
            None => None,
        }
    }

    fn key(&self) -> (r: Option<String>) {
        match &self.key {
            Some(s) => Some(s.clone()),
            None => None,
        }
    }

    fn time(&self) -> (r: Option<String>) {
        match &self.time {
            Some(s) => Some(s.clone()),
            None => None,
        }
    }

    fn tempo(&self) -> (r: Option<String>) {
        match &self.tempo {
            Some(s) => Some(s.clone()),
            None => None,
        }
    }

    fn duration(&self) -> (r: Option<String>) {
        match &self.duration {
            Some(s) => Some(s.clone()),
            None => None,
        }
    }

    fn capo(&self) -> (r: Option<String>) {
        match &self.capo {
            Some(s) => Some(s.clone()),
            None => None,
        }
    }

    fn b_notation(&self) -> (r: BNotation) {
        BNotation::B
    }
}

} // verus!
