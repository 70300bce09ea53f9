use vstd::prelude::*;
use crate::format::BNotation;
use crate::text::str_eq;
use crate::token::{Meta, MetaView, Token, TokenView};
use crate::tokenizer::tokens_view;

verus! {

/// Mathematical image of a set of song attributes.
#[verifier::ext_equal]
pub struct MetadataView {
    pub title: Option<Seq<char>>,
    pub subtitle: Option<Seq<char>>,
    pub artist: Option<Seq<char>>,
    pub composer: Option<Seq<char>>,
    pub lyricist: Option<Seq<char>>,
    pub copyright: Option<Seq<char>>,
    pub album: Option<Seq<char>>,
    pub year: Option<Seq<char>>,
    pub key: Option<Seq<char>>,
    pub time: Option<Seq<char>>,
    pub tempo: Option<Seq<char>>,
    pub duration: Option<Seq<char>>,
    pub capo: Option<Seq<char>>,
    pub b_notation: BNotation,
}

/// The image of an optional owned string.
pub open spec fn opt_str_view(o: Option<String>) -> Option<Seq<char>> {
    match o {
        Some(s) => Some(s@),
        None => None,
    }
}

/// The metadata with every attribute absent.
pub open spec fn empty_metadata() -> MetadataView {
    MetadataView {
        title: None,
        subtitle: None,
        artist: None,
        composer: None,
        lyricist: None,
        copyright: None,
        album: None,
        year: None,
        key: None,
        time: None,
        tempo: None,
        duration: None,
        capo: None,
        b_notation: BNotation::B,
    }
}

/// The capability interface over song attributes: both externally
/// supplied metadata and the accumulator for metadata discovered inline
/// answer these uniformly.
pub trait MetadataTrait: Sized {
    /// The attributes this value holds.
    spec fn metadata_view(&self) -> MetadataView;

    fn title(&self) -> (r: Option<String>)
        ensures
            opt_str_view(r) == self.metadata_view().title,
    ;

    fn subtitle(&self) -> (r: Option<String>)
        ensures
            opt_str_view(r) == self.metadata_view().subtitle,
    ;

    fn artist(&self) -> (r: Option<String>)
        ensures
            opt_str_view(r) == self.metadata_view().artist,
    ;

    fn composer(&self) -> (r: Option<String>)
        ensures
            opt_str_view(r) == self.metadata_view().composer,
    ;

    fn lyricist(&self) -> (r: Option<String>)
        ensures
            opt_str_view(r) == self.metadata_view().lyricist,
    ;

    fn copyright(&self) -> (r: Option<String>)
        ensures
            opt_str_view(r) == self.metadata_view().copyright,
    ;

    fn album(&self) -> (r: Option<String>)
        ensures
            opt_str_view(r) == self.metadata_view().album,
    ;

    fn year(&self) -> (r: Option<String>)
        ensures
            opt_str_view(r) == self.metadata_view().year,
    ;

    fn key(&self) -> (r: Option<String>)
        ensures
            opt_str_view(r) == self.metadata_view().key,
    ;

    fn time(&self) -> (r: Option<String>)
        ensures
            opt_str_view(r) == self.metadata_view().time,
    ;

    fn tempo(&self) -> (r: Option<String>)
        ensures
            opt_str_view(r) == self.metadata_view().tempo,
    ;

    fn duration(&self) -> (r: Option<String>)
        ensures
            opt_str_view(r) == self.metadata_view().duration,
    ;

    fn capo(&self) -> (r: Option<String>)
        ensures
            opt_str_view(r) == self.metadata_view().capo,
    ;

    fn b_notation(&self) -> (r: BNotation)
        ensures
            r == self.metadata_view().b_notation,
    ;
}

/// Song-level metadata: either supplied by the caller or discovered
/// inline; constructed once per conversion call, read by the converters
/// and never mutated by them.
#[derive(Clone, Debug, PartialEq)]
pub struct MetaInformation {
    pub title: Option<String>,
    pub subtitle: Option<String>,
    pub artist: Option<String>,
    pub composer: Option<String>,
    pub lyricist: Option<String>,
    pub copyright: Option<String>,
    pub album: Option<String>,
    pub year: Option<String>,
    pub key: Option<String>,
    pub time: Option<String>,
    pub tempo: Option<String>,
    pub duration: Option<String>,
    pub capo: Option<String>,
    pub b_notation: BNotation,
}

impl View for MetaInformation {
    type V = MetadataView;

    open spec fn view(&self) -> MetadataView {
        MetadataView {
            title: opt_str_view(self.title),
            subtitle: opt_str_view(self.subtitle),
            artist: opt_str_view(self.artist),
            composer: opt_str_view(self.composer),
            lyricist: opt_str_view(self.lyricist),
            copyright: opt_str_view(self.copyright),
            album: opt_str_view(self.album),
            year: opt_str_view(self.year),
            key: opt_str_view(self.key),
            time: opt_str_view(self.time),
            tempo: opt_str_view(self.tempo),
            duration: opt_str_view(self.duration),
            capo: opt_str_view(self.capo),
            b_notation: self.b_notation,
        }
    }
}

/// A copy of an optional string with the same image.
fn clone_opt_str(o: &Option<String>) -> (r: Option<String>)
    ensures
        opt_str_view(r) == opt_str_view(*o),
{
    match o {
        Some(s) => Some(s.clone()),
        None => None,
    }
}

impl Default for MetaInformation {
    /// Metadata with every attribute absent and English note names.
    fn default() -> (r: Self)
        ensures
            r@ == empty_metadata(),
    {
        MetaInformation {
            title: None,
            subtitle: None,
            artist: None,
            composer: None,
            lyricist: None,
            copyright: None,
            album: None,
            year: None,
            key: None,
            time: None,
            tempo: None,
            duration: None,
            capo: None,
            b_notation: BNotation::B,
        }
    }
}

/// What one discovered metadata entry contributes: the entry's keyword
/// picks the attribute; unknown keywords change nothing.
pub open spec fn apply_meta_spec(v: MetadataView, m: MetaView) -> MetadataView {
    if m.keyword == "Subtitle"@ {
        MetadataView { subtitle: Some(m.content), ..v }
    } else if m.keyword == "Artist"@ {
        MetadataView { artist: Some(m.content), ..v }
    } else if m.keyword == "Composer"@ {
        MetadataView { composer: Some(m.content), ..v }
    } else if m.keyword == "Lyricist"@ {
        MetadataView { lyricist: Some(m.content), ..v }
    } else if m.keyword == "Copyright"@ {
        MetadataView { copyright: Some(m.content), ..v }
    } else if m.keyword == "Album"@ {
        MetadataView { album: Some(m.content), ..v }
    } else if m.keyword == "Year"@ {
        MetadataView { year: Some(m.content), ..v }
    } else if m.keyword == "Key"@ {
        MetadataView { key: Some(m.content), ..v }
    } else if m.keyword == "Time"@ {
        MetadataView { time: Some(m.content), ..v }
    } else if m.keyword == "Tempo"@ {
        MetadataView { tempo: Some(m.content), ..v }
    } else if m.keyword == "Duration"@ {
        MetadataView { duration: Some(m.content), ..v }
    } else if m.keyword == "Capo"@ {
        MetadataView { capo: Some(m.content), ..v }
    } else {
        v
    }
}

/// What one token contributes to discovered metadata: the first
/// level-one headline supplies the title, metadata entries supply their
/// attribute, everything else contributes nothing.
pub open spec fn discover_token_spec(v: MetadataView, t: TokenView) -> MetadataView {
    match t {
        TokenView::Headline { level, text, .. } => if level == 1 && v.title is None {
            MetadataView { title: Some(text), ..v }
        } else {
            v
        },
        TokenView::Meta(m) => apply_meta_spec(v, m),
        _ => v,
    }
}

/// The metadata a token sequence discovers, starting from all-absent.
pub open spec fn discover_spec(ts: Seq<TokenView>) -> MetadataView
    decreases ts.len(),
{
    if ts.len() == 0 {
        empty_metadata()
    } else {
        discover_token_spec(discover_spec(ts.drop_last()), ts.last())
    }
}

impl MetaInformation {
    /// Record one discovered metadata entry.
    pub fn assign(&mut self, m: &Meta)
        ensures
            final(self)@ == apply_meta_spec(old(self)@, m@),
    {
        let content = Some(m.content.clone());
        if str_eq(m.keyword.as_str(), "Subtitle") {
            self.subtitle = content;
        } else if str_eq(m.keyword.as_str(), "Artist") {
            self.artist = content;
        } else if str_eq(m.keyword.as_str(), "Composer") {
            self.composer = content;
        } else if str_eq(m.keyword.as_str(), "Lyricist") {
            self.lyricist = content;
        } else if str_eq(m.keyword.as_str(), "Copyright") {
            self.copyright = content;
        } else if str_eq(m.keyword.as_str(), "Album") {
            self.album = content;
        } else if str_eq(m.keyword.as_str(), "Year") {
            self.year = content;
        } else if str_eq(m.keyword.as_str(), "Key") {
            self.key = content;
        } else if str_eq(m.keyword.as_str(), "Time") {
            self.time = content;
        } else if str_eq(m.keyword.as_str(), "Tempo") {
            self.tempo = content;
        } else if str_eq(m.keyword.as_str(), "Duration") {
            self.duration = content;
        } else if str_eq(m.keyword.as_str(), "Capo") {
            self.capo = content;
        }
        proof {
            assert(self@ =~~= apply_meta_spec(old(self)@, m@));
        }
    }

    /// The metadata a token stream discovers: the first level-one
    /// headline's text as the title, and every metadata line's value.
    pub fn from_tokens(tokens: &Vec<Token>) -> (r: Self)
        ensures
            r@ == discover_spec(tokens_view(tokens@)),
    {
        let ghost tv = tokens_view(tokens@);
        let mut meta = MetaInformation::default();
        let n = tokens.len();
        let mut i: usize = 0;
        proof {
            assert(tv.take(0) =~= Seq::<TokenView>::empty());
        }
        while i < n
            invariant
                n == tokens@.len(),
                tv == tokens_view(tokens@),
                0 <= i <= n,
                meta@ == discover_spec(tv.take(i as int)),
            decreases n - i,
        {
            proof {
                assert(tv.take(i + 1).drop_last() =~= tv.take(i as int));
                assert(tv.take(i + 1).last() == tv[i as int]);
                assert(tv[i as int] == tokens@[i as int]@);
            }
            match &tokens[i] {
                Token::Headline { level, text, .. } => {
                    if *level == 1 && matches!(&meta.title, Option::None) {
                        meta.title = Some(text.clone());
                    }
                },
                Token::Meta(m) => {
                    meta.assign(m);
                },
                _ => (),
            }
            proof {
                assert(meta@ =~~= discover_spec(tv.take(i + 1)));
            }
            i += 1;
        }
        proof {
            assert(tv.take(n as int) =~= tv);
        }
        meta
    }
}

impl MetadataTrait for MetaInformation {
    open spec fn metadata_view(&self) -> MetadataView {
        self@
    }

    fn title(&self) -> (r: Option<String>) {
        clone_opt_str(&self.title)
    }

    fn subtitle(&self) -> (r: Option<String>) {
        clone_opt_str(&self.subtitle)
    }

    fn artist(&self) -> (r: Option<String>) {
        clone_opt_str(&self.artist)
    }

    fn composer(&self) -> (r: Option<String>) {
        clone_opt_str(&self.composer)
    }

    fn lyricist(&self) -> (r: Option<String>) {
        clone_opt_str(&self.lyricist)
    }

    fn copyright(&self) -> (r: Option<String>) {
        clone_opt_str(&self.copyright)
    }

    fn album(&self) -> (r: Option<String>) {
        clone_opt_str(&self.album)
    }

    fn year(&self) -> (r: Option<String>) {
        clone_opt_str(&self.year)
    }

    fn key(&self) -> (r: Option<String>) {
        clone_opt_str(&self.key)
    }

    fn time(&self) -> (r: Option<String>) {
        clone_opt_str(&self.time)
    }

    fn tempo(&self) -> (r: Option<String>) {
        clone_opt_str(&self.tempo)
    }

    fn duration(&self) -> (r: Option<String>) {
        clone_opt_str(&self.duration)
    }

    fn capo(&self) -> (r: Option<String>) {
        clone_opt_str(&self.capo)
    }

    fn b_notation(&self) -> (r: BNotation) {
        self.b_notation
    }
}

} // verus!
