use vstd::prelude::*;
use crate::text::{find_char, find_char_in, str_eq, trim_start, trim_start_spec};

verus! {

/// A minimal structural or literal unit produced by the scanner. `Eof`
/// is always last and appears exactly once.
#[derive(Clone, Debug, PartialEq)]
pub enum Lexeme {
    HeaderStart,
    Newline,
    ChordStart,
    ChordEnd,
    QuoteStart,
    Colon,
    ChorusMark,
    BridgeMark,
    Literal(String),
    Eof,
}

/// Mathematical image of a `Lexeme`.
pub enum LexemeView {
    HeaderStart,
    Newline,
    ChordStart,
    ChordEnd,
    QuoteStart,
    Colon,
    ChorusMark,
    BridgeMark,
    Literal(Seq<char>),
    Eof,
}

impl View for Lexeme {
    type V = LexemeView;

    open spec fn view(&self) -> LexemeView {
        match self {
            Lexeme::HeaderStart => LexemeView::HeaderStart,
            Lexeme::Newline => LexemeView::Newline,
            Lexeme::ChordStart => LexemeView::ChordStart,
            Lexeme::ChordEnd => LexemeView::ChordEnd,
            Lexeme::QuoteStart => LexemeView::QuoteStart,
            Lexeme::Colon => LexemeView::Colon,
            Lexeme::ChorusMark => LexemeView::ChorusMark,
            Lexeme::BridgeMark => LexemeView::BridgeMark,
            Lexeme::Literal(s) => LexemeView::Literal(s@),
            Lexeme::Eof => LexemeView::Eof,
        }
    }
}

/// The characters a lexeme contributes when it is appended to a text
/// buffer. `Eof` contributes nothing.
pub open spec fn lexeme_text_spec(l: LexemeView) -> Seq<char> {
    match l {
        LexemeView::HeaderStart => seq!['#'],
        LexemeView::Newline => seq!['\n'],
        LexemeView::ChordStart => seq!['['],
        LexemeView::ChordEnd => seq![']'],
        LexemeView::QuoteStart => seq!['>'],
        LexemeView::Colon => seq![':'],
        LexemeView::ChorusMark => seq!['!'],
        LexemeView::BridgeMark => seq!['$'],
        LexemeView::Literal(s) => s,
        LexemeView::Eof => Seq::<char>::empty(),
    }
}

impl Lexeme {
    /// The text this lexeme stands for in the source.
    pub fn text(&self) -> (r: &str)
        ensures
            r@ == lexeme_text_spec(self@),
    {
        proof {
            reveal_strlit("#");
            reveal_strlit("\n");
            reveal_strlit("[");
            reveal_strlit("]");
            reveal_strlit(">");
            reveal_strlit(":");
            reveal_strlit("!");
            reveal_strlit("$");
            reveal_strlit("");
        }
        let r = match self {
            Lexeme::HeaderStart => "#",
            Lexeme::Newline => "\n",
            Lexeme::ChordStart => "[",
            Lexeme::ChordEnd => "]",
            Lexeme::QuoteStart => ">",
            Lexeme::Colon => ":",
            Lexeme::ChorusMark => "!",
            Lexeme::BridgeMark => "$",
            Lexeme::Literal(s) => s.as_str(),
            Lexeme::Eof => "",
        };
        proof {
            assert(r@ =~= lexeme_text_spec(self@));
        }
        r
    }
}

/// The chorus/bridge mark a headline may carry; `Plain` is a headline
/// without one.
#[derive(Clone, Copy, Debug, PartialEq, Eq, Structural)]
pub enum Modifier {
    Plain,
    Chorus,
    Bridge,
}

/// A typed key/value song attribute read from a metadata line.
#[derive(Clone, Debug, PartialEq)]
pub struct Meta {
    pub keyword: String,
    pub content: String,
}

/// Mathematical image of a `Meta`.
pub struct MetaView {
    pub keyword: Seq<char>,
    pub content: Seq<char>,
}

impl View for Meta {
    type V = MetaView;

    open spec fn view(&self) -> MetaView {
        MetaView { keyword: self.keyword@, content: self.content@ }
    }
}

/// The closed set of keywords a metadata line may use. The title is
/// deliberately absent: it comes only from the level-one headline or from
/// externally supplied metadata.
pub open spec fn is_known_keyword(s: Seq<char>) -> bool {
    ||| s == "Subtitle"@
    ||| s == "Artist"@
    ||| s == "Composer"@
    ||| s == "Lyricist"@
    ||| s == "Copyright"@
    ||| s == "Album"@
    ||| s == "Year"@
    ||| s == "Key"@
    ||| s == "Time"@
    ||| s == "Tempo"@
    ||| s == "Duration"@
    ||| s == "Capo"@
}

/// How a literal line is read as a metadata entry: the text before the
/// first colon must be a known keyword; the content is the rest of the
/// line with leading blanks removed.
pub open spec fn meta_from_line_spec(s: Seq<char>) -> Option<MetaView> {
    match find_char(s, ':') {
        Some(i) => if is_known_keyword(s.take(i)) {
            Some(MetaView { keyword: s.take(i), content: trim_start_spec(s.skip(i + 1)) })
        } else {
            None
        },
        None => None,
    }
}

/// Whether the string is one of the known metadata keywords.
pub fn is_keyword(s: &str) -> (r: bool)
    ensures
        r == is_known_keyword(s@),
{
    str_eq(s, "Subtitle") || str_eq(s, "Artist") || str_eq(s, "Composer") || str_eq(s, "Lyricist")
        || str_eq(s, "Copyright") || str_eq(s, "Album") || str_eq(s, "Year") || str_eq(s, "Key")
        || str_eq(s, "Time") || str_eq(s, "Tempo") || str_eq(s, "Duration") || str_eq(s, "Capo")
}

impl Meta {
    /// Read a line as a metadata entry, if it matches `Keyword: value`
    /// for a known keyword.
    pub fn try_from_str(s: &str) -> (r: Option<Meta>)
        ensures
            match (r, meta_from_line_spec(s@)) {
                (Some(m), Some(v)) => m@ == v,
                (None, None) => true,
                _ => false,
            },
    {
        let len: usize = s.unicode_len();
        match find_char_in(s, ':') {
            Some(i) => {
                let kw = s.substring_char(0, i);
                proof {
                    assert(kw@ =~= s@.take(i as int));
                }
                if is_keyword(kw) {
                    let tail = s.substring_char(i + 1, len);
                    proof {
                        assert(tail@ =~= s@.skip(i + 1));
                    }
                    let content = trim_start(tail);
                    Some(Meta { keyword: kw.to_owned(), content: content.to_owned() })
                } else {
                    None
                }
            },
            None => None,
        }
    }
}

/// A semantic unit produced by the tokenizer from lexemes.
#[derive(Clone, Debug, PartialEq)]
pub enum Token {
    Headline { level: u8, text: String, modifier: Modifier },
    Chord(String),
    Literal(String),
    Quote(String),
    Meta(Meta),
    Newline,
}

/// Mathematical image of a `Token`.
pub enum TokenView {
    Headline { level: u8, text: Seq<char>, modifier: Modifier },
    Chord(Seq<char>),
    Literal(Seq<char>),
    Quote(Seq<char>),
    Meta(MetaView),
    Newline,
}

impl View for Token {
    type V = TokenView;

    open spec fn view(&self) -> TokenView {
        match self {
            Token::Headline { level, text, modifier } => TokenView::Headline {
                level: *level,
                text: text@,
                modifier: *modifier,
            },
            Token::Chord(s) => TokenView::Chord(s@),
            Token::Literal(s) => TokenView::Literal(s@),
            Token::Quote(s) => TokenView::Quote(s@),
            Token::Meta(m) => TokenView::Meta(m@),
            Token::Newline => TokenView::Newline,
        }
    }
}

impl Token {
    /// A chord token from the raw text between chord delimiters.
    pub fn chord(text: String) -> (r: Token)
        ensures
            r@ == TokenView::Chord(text@),
    {
        Token::Chord(text)
    }

    /// A headline token; the text is kept as given.
    pub fn headline(level: u8, text: &str, modifier: Modifier) -> (r: Token)
        ensures
            r@ == (TokenView::Headline { level, text: text@, modifier }),
    {
        Token::Headline { level, text: text.to_owned(), modifier }
    }

    /// A quote token.
    pub fn quote(text: &str) -> (r: Token)
        ensures
            r@ == TokenView::Quote(text@),
    {
        Token::Quote(text.to_owned())
    }

    /// A line break token.
    pub fn newline() -> (r: Token)
        ensures
            r@ == TokenView::Newline,
    {
        Token::Newline
    }
}

/// A deep copy of a token whose image equals the original's.
pub fn clone_token(t: &Token) -> (r: Token)
    ensures
        r@ == t@,
{
    match t {
        Token::Headline { level, text, modifier } => Token::Headline {
            level: *level,
            text: text.clone(),
            modifier: *modifier,
        },
        Token::Chord(s) => Token::Chord(s.clone()),
        Token::Literal(s) => Token::Literal(s.clone()),
        Token::Quote(s) => Token::Quote(s.clone()),
        Token::Meta(m) => Token::Meta(
            Meta { keyword: m.keyword.clone(), content: m.content.clone() },
        ),
        Token::Newline => Token::Newline,
    }
}

} // verus!
