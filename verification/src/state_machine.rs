use vstd::prelude::*;
use crate::text::trim_start_spec;
use crate::text::trim_start;
use crate::token::{
    lexeme_text_spec, meta_from_line_spec, Lexeme, LexemeView, Meta, Modifier, Token, TokenView,
};

verus! {

/// The states of the tokenizer's finite-state machine. `Bof` and
/// `Newline` share their transitions: both mean start-of-line.
#[derive(Clone, Copy, Debug, PartialEq, Eq, Structural)]
pub enum Mode {
    Bof,
    Header,
    Chord,
    Quote,
    Literal,
    Newline,
    Eof,
}

/// A diagnostic recorded while tokenizing malformed input. Diagnostics
/// are collected, never raised as failures: the tokenizer is total.
#[derive(Clone, Copy, Debug, PartialEq, Eq, Structural)]
pub enum StateError {
    UnclosedChord,
    NestedChord,
    InvalidChordCharacter,
    UnexpectedChordEnd,
    UnexpectedHeaderStart,
    UnexpectedEndOfFile,
}

/// Mathematical image of the machine: its state, the buffered literal
/// text, the header counters and the diagnostics collected so far.
pub struct FsmView {
    pub state: Mode,
    pub buffer: Seq<char>,
    pub header_level: u8,
    pub header_modifier: Modifier,
    pub warnings: Seq<StateError>,
}

/// The machine's state when tokenizing begins.
pub open spec fn initial_fsm() -> FsmView {
    FsmView {
        state: Mode::Bof,
        buffer: Seq::<char>::empty(),
        header_level: 0,
        header_modifier: Modifier::Plain,
        warnings: Seq::<StateError>::empty(),
    }
}

/// The view with a lexeme's text appended to the buffer.
pub open spec fn fsm_append(v: FsmView, l: LexemeView) -> FsmView {
    FsmView { buffer: v.buffer + lexeme_text_spec(l), ..v }
}

/// The view with one more diagnostic recorded.
pub open spec fn fsm_warn(v: FsmView, w: StateError) -> FsmView {
    FsmView { warnings: v.warnings.push(w), ..v }
}

/// The transition table: what consuming one lexeme does to the machine,
/// and the state to move to, if this lexeme ends the current token.
pub open spec fn characterize_spec(v: FsmView, l: LexemeView) -> (Option<Mode>, FsmView) {
    match v.state {
        Mode::Bof | Mode::Newline => match l {
            LexemeView::HeaderStart => (
                Some(Mode::Header),
                FsmView { header_level: 1, ..v },
            ),
            LexemeView::Newline => (Some(Mode::Newline), v),
            LexemeView::ChordStart => (Some(Mode::Chord), v),
            LexemeView::ChordEnd => (
                Some(Mode::Literal),
                fsm_warn(v, StateError::UnexpectedChordEnd),
            ),
            LexemeView::QuoteStart => (Some(Mode::Quote), v),
            LexemeView::Eof => (Some(Mode::Eof), v),
            _ => (Some(Mode::Literal), fsm_append(v, l)),
        },
        Mode::Chord => match l {
            // a header mark inside a chord is a sharp
            LexemeView::HeaderStart => (None, fsm_append(v, l)),
            LexemeView::Newline => (
                Some(Mode::Newline),
                fsm_warn(v, StateError::UnclosedChord),
            ),
            LexemeView::ChordStart => (
                None,
                fsm_warn(fsm_append(v, l), StateError::NestedChord),
            ),
            LexemeView::ChordEnd => (Some(Mode::Literal), v),
            LexemeView::Literal(_) => (None, fsm_append(v, l)),
            LexemeView::Eof => (
                Some(Mode::Eof),
                fsm_warn(v, StateError::UnexpectedEndOfFile),
            ),
            _ => (
                None,
                fsm_warn(fsm_append(v, l), StateError::InvalidChordCharacter),
            ),
        },
        Mode::Header => match l {
            LexemeView::HeaderStart => (
                None,
                FsmView {
                    header_level: if v.header_level < 255 {
                        (v.header_level + 1) as u8
                    } else {
                        255u8
                    },
                    ..v
                },
            ),
            LexemeView::Newline => (Some(Mode::Newline), v),
            LexemeView::ChorusMark => if !(v.header_modifier is Plain) {
                (None, fsm_append(v, l))
            } else {
                (None, FsmView { header_modifier: Modifier::Chorus, ..v })
            },
            LexemeView::BridgeMark => if !(v.header_modifier is Plain) {
                (None, fsm_append(v, l))
            } else {
                (None, FsmView { header_modifier: Modifier::Bridge, ..v })
            },
            LexemeView::Eof => (
                Some(Mode::Eof),
                fsm_warn(v, StateError::UnexpectedEndOfFile),
            ),
            _ => (None, fsm_append(v, l)),
        },
        Mode::Quote => match l {
            LexemeView::Newline => (Some(Mode::Newline), v),
            LexemeView::Eof => (
                Some(Mode::Eof),
                fsm_warn(v, StateError::UnexpectedEndOfFile),
            ),
            _ => (None, fsm_append(v, l)),
        },
        Mode::Literal => match l {
            LexemeView::Newline => (Some(Mode::Newline), v),
            // headers are recognized at line starts only
            LexemeView::HeaderStart => (
                None,
                fsm_append(fsm_warn(v, StateError::UnexpectedHeaderStart), l),
            ),
            LexemeView::ChordStart => (Some(Mode::Chord), v),
            // a closing delimiter with no open chord is dropped
            LexemeView::ChordEnd => (None, fsm_warn(v, StateError::UnexpectedChordEnd)),
            LexemeView::Eof => (
                Some(Mode::Eof),
                fsm_warn(v, StateError::UnexpectedEndOfFile),
            ),
            _ => (None, fsm_append(v, l)),
        },
        // the terminal state consumes nothing further
        Mode::Eof => (None, v),
    }
}

/// What leaving a state emits: the token built from the buffered text,
/// and the machine with its buffer and header counters reset.
pub open spec fn build_token_spec(v: FsmView) -> (Option<TokenView>, FsmView) {
    match v.state {
        Mode::Header => (
            Some(
                TokenView::Headline {
                    level: v.header_level,
                    text: trim_start_spec(v.buffer),
                    modifier: v.header_modifier,
                },
            ),
            FsmView {
                buffer: Seq::<char>::empty(),
                header_level: 0,
                header_modifier: Modifier::Plain,
                ..v
            },
        ),
        Mode::Chord => (
            Some(TokenView::Chord(v.buffer)),
            FsmView { buffer: Seq::<char>::empty(), ..v },
        ),
        Mode::Newline => (Some(TokenView::Newline), v),
        Mode::Quote => (
            Some(TokenView::Quote(trim_start_spec(v.buffer))),
            FsmView { buffer: Seq::<char>::empty(), ..v },
        ),
        Mode::Literal => (
            if v.buffer.len() == 0 {
                None
            } else {
                match meta_from_line_spec(v.buffer) {
                    Some(m) => Some(TokenView::Meta(m)),
                    None => Some(TokenView::Literal(v.buffer)),
                }
            },
            FsmView { buffer: Seq::<char>::empty(), ..v },
        ),
        Mode::Bof => (None, v),
        Mode::Eof => (None, v),
    }
}

/// The tokenizer's finite-state machine. One instance lives for one
/// `tokenize` call; all its counters and buffers are local to it.
pub struct FSM {
    state: Mode,
    literal_buffer: String,
    header_level: u8,
    header_modifier: Modifier,
    warnings: Vec<StateError>,
}

impl View for FSM {
    type V = FsmView;

    closed spec fn view(&self) -> FsmView {
        FsmView {
            state: self.state,
            buffer: self.literal_buffer@,
            header_level: self.header_level,
            header_modifier: self.header_modifier,
            warnings: self.warnings@,
        }
    }
}

impl FSM {
    /// A fresh machine at beginning-of-file.
    pub fn new() -> (r: Self)
        ensures
            r@ == initial_fsm(),
    {
        let r = FSM {
            state: Mode::Bof,
            literal_buffer: String::new(),
            header_level: 0,
            header_modifier: Modifier::Plain,
            warnings: Vec::new(),
        };
        proof {
            assert(r@.buffer =~= initial_fsm().buffer);
            assert(r@.warnings =~= initial_fsm().warnings);
        }
        r
    }

    /// Consume one lexeme: buffer its text or record a diagnostic as the
    /// transition table says, and report the next state if this lexeme
    /// closes the current token.
    pub fn characterize_lexeme(&mut self, lexeme: &Lexeme) -> (r: Option<Mode>)
        ensures
            r == characterize_spec(old(self)@, lexeme@).0,
            final(self)@ == characterize_spec(old(self)@, lexeme@).1,
    {
        match self.state {
            Mode::Bof | Mode::Newline => match lexeme {
                Lexeme::HeaderStart => {
                    self.header_level = 1;
                    Some(Mode::Header)
                },
                Lexeme::Newline => Some(Mode::Newline),
                Lexeme::ChordStart => Some(Mode::Chord),
                Lexeme::ChordEnd => {
                    self.warnings.push(StateError::UnexpectedChordEnd);
                    Some(Mode::Literal)
                },
                Lexeme::QuoteStart => Some(Mode::Quote),
                Lexeme::Eof => FSM::build_eof(),
                _ => {
                    self.append_lexeme(lexeme);
                    Some(Mode::Literal)
                },
            },
            Mode::Chord => match lexeme {
                Lexeme::HeaderStart => {
                    // a sharp inside the chord
                    self.append_lexeme(lexeme);
                    None
                },
                Lexeme::Newline => {
                    self.warnings.push(StateError::UnclosedChord);
                    Some(Mode::Newline)
                },
                Lexeme::ChordStart => {
                    self.append_lexeme(lexeme);
                    self.warnings.push(StateError::NestedChord);
                    None
                },
                Lexeme::ChordEnd => Some(Mode::Literal),
                Lexeme::Literal(_) => {
                    self.append_lexeme(lexeme);
                    None
                },
                Lexeme::Eof => {
                    self.warnings.push(StateError::UnexpectedEndOfFile);
                    FSM::build_eof()
                },
                _ => {
                    self.append_lexeme(lexeme);
                    self.warnings.push(StateError::InvalidChordCharacter);
                    None
                },
            },
            Mode::Header => match lexeme {
                Lexeme::HeaderStart => {
                    if self.header_level < 255 {
                        self.header_level = self.header_level + 1;
                    }
                    None
                },
                Lexeme::Newline => Some(Mode::Newline),
                Lexeme::ChorusMark => {
                    if !matches!(self.header_modifier, Modifier::Plain) {
                        // a modifier is already set: keep this one as text
                        self.append_lexeme(lexeme);
                    } else {
                        self.header_modifier = Modifier::Chorus;
                    }
                    None
                },
                Lexeme::BridgeMark => {
                    if !matches!(self.header_modifier, Modifier::Plain) {
                        self.append_lexeme(lexeme);
                    } else {
                        self.header_modifier = Modifier::Bridge;
                    }
                    None
                },
                Lexeme::Eof => {
                    self.warnings.push(StateError::UnexpectedEndOfFile);
                    FSM::build_eof()
                },
                _ => {
                    self.append_lexeme(lexeme);
                    None
                },
            },
            Mode::Quote => match lexeme {
                Lexeme::Newline => Some(Mode::Newline),
                Lexeme::Eof => {
                    self.warnings.push(StateError::UnexpectedEndOfFile);
                    FSM::build_eof()
                },
                _ => {
                    self.append_lexeme(lexeme);
                    None
                },
            },
            Mode::Literal => match lexeme {
                Lexeme::Newline => Some(Mode::Newline),
                Lexeme::HeaderStart => {
                    self.warnings.push(StateError::UnexpectedHeaderStart);
                    self.append_lexeme(lexeme);
                    None
                },
                Lexeme::ChordStart => Some(Mode::Chord),
                Lexeme::ChordEnd => {
                    self.warnings.push(StateError::UnexpectedChordEnd);
                    None
                },
                Lexeme::Eof => {
                    self.warnings.push(StateError::UnexpectedEndOfFile);
                    FSM::build_eof()
                },
                _ => {
                    self.append_lexeme(lexeme);
                    None
                },
            },
            Mode::Eof => None,
        }
    }

    /// The terminal transition.
    fn build_eof() -> (r: Option<Mode>)
        ensures
            r == Some(Mode::Eof),
    {
        Some(Mode::Eof)
    }

    /// Build the token for the state being left, resetting the buffer
    /// and, for headers, the level and modifier.
    pub fn build_token(&mut self) -> (r: Option<Token>)
        ensures
            match (r, build_token_spec(old(self)@).0) {
                (Some(t), Some(tv)) => t@ == tv,
                (None, None) => true,
                _ => false,
            },
            final(self)@ == build_token_spec(old(self)@).1,
    {
        match self.state {
            Mode::Header => self.build_token_from_header(),
            Mode::Chord => Some(Token::chord(self.consume_buffer())),
            Mode::Newline => Some(Token::newline()),
            Mode::Quote => {
                let buffer = self.consume_buffer();
                Some(Token::quote(trim_start(buffer.as_str())))
            },
            Mode::Literal => self.build_token_from_literal(),
            Mode::Bof => None,
            Mode::Eof => None,
        }
    }

    /// Move to the state the transition table reported.
    pub fn set_state(&mut self, state: Mode)
        ensures
            final(self)@ == (FsmView { state, ..old(self)@ }),
    {
        self.state = state
    }

    /// The diagnostics recorded so far.
    pub fn warnings(&self) -> (r: &Vec<StateError>)
        ensures
            r@ == self@.warnings,
    {
        &self.warnings
    }

    fn build_token_from_header(&mut self) -> (r: Option<Token>)
        requires
            old(self)@.state is Header,
        ensures
            match (r, build_token_spec(old(self)@).0) {
                (Some(t), Some(tv)) => t@ == tv,
                (None, None) => true,
                _ => false,
            },
            final(self)@ == build_token_spec(old(self)@).1,
    {
        let buffer = self.consume_buffer();
        let token = Token::headline(
            self.header_level,
            trim_start(buffer.as_str()),
            self.header_modifier,
        );
        self.header_level = 0;
        self.header_modifier = Modifier::Plain;
        Some(token)
    }

    fn consume_buffer(&mut self) -> (r: String)
        ensures
            r@ == old(self)@.buffer,
            final(self)@ == (FsmView { buffer: Seq::<char>::empty(), ..old(self)@ }),
    {
        let r = self.literal_buffer.clone();
        self.literal_buffer = String::new();
        r
    }

    fn append_lexeme(&mut self, lexeme: &Lexeme)
        ensures
            final(self)@ == fsm_append(old(self)@, lexeme@),
    {
        let t = lexeme.text();
        self.literal_buffer.append(t);
    }

    fn build_token_from_literal(&mut self) -> (r: Option<Token>)
        requires
            old(self)@.state is Literal,
        ensures
            match (r, build_token_spec(old(self)@).0) {
                (Some(t), Some(tv)) => t@ == tv,
                (None, None) => true,
                _ => false,
            },
            final(self)@ == build_token_spec(old(self)@).1,
    {
        let literal = self.consume_buffer();
        if literal.as_str().is_empty() {
            return None;
        }
        match Meta::try_from_str(literal.as_str()) {
            Some(meta) => Some(Token::Meta(meta)),
            None => Some(Token::Literal(literal)),
        }
    }
}

/// Delimiter robustness: a line break while a chord is still open never
/// fails; the machine records the unclosed-chord diagnostic, and the
/// token built for the chord being left still carries the whole
/// buffered content, so no input characters are lost.
pub proof fn lemma_unclosed_chord_keeps_content(v: FsmView)
    requires
        v.state is Chord,
    ensures
        ({
            let stepped = characterize_spec(v, LexemeView::Newline);
            &&& stepped.0 == Some(Mode::Newline)
            &&& stepped.1.buffer == v.buffer
            &&& stepped.1.warnings == v.warnings.push(StateError::UnclosedChord)
            &&& build_token_spec(stepped.1).0 == Some(TokenView::Chord(v.buffer))
        }),
{
}

} // verus!
