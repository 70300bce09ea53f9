use vstd::prelude::*;
use vstd::arithmetic::div_mod::{
    lemma_add_mod_noop_right, lemma_mod_add_multiples_vanish, lemma_mod_bound, lemma_small_mod,
};
use crate::format::BNotation;
use crate::text::{find_char, lemma_find_char_at, lemma_find_char_none, lemma_find_char_some};
use crate::text::find_char_in;

verus! {

/// The seven note letters of the diatonic scale.
#[derive(Clone, Copy, Debug, PartialEq, Eq, Structural)]
pub enum NoteLetter {
    A,
    B,
    C,
    D,
    E,
    F,
    G,
}

/// The accidental attached to a note letter.
#[derive(Clone, Copy, Debug, PartialEq, Eq, Structural)]
pub enum Accidental {
    Natural,
    Sharp,
    Flat,
}

/// A spelled note: a letter plus an accidental. The spelling is a
/// presentation choice; the transposition-invariant identity of a note is
/// its chromatic pitch class.
#[derive(Clone, Copy, Debug, PartialEq, Eq, Structural)]
pub struct Note {
    pub letter: NoteLetter,
    pub accidental: Accidental,
}

/// A chord symbol: a root note, a free-form quality suffix (such as "m7" or
/// "sus4") and an optional bass note after a slash.
#[derive(Clone, Debug, PartialEq)]
pub struct Chord {
    pub root: Note,
    pub quality: String,
    pub bass: Option<Note>,
}

/// The content of one chord bracket. Bracket content that does not start
/// with a note letter is kept verbatim, never rejected.
#[derive(Clone, Debug, PartialEq)]
pub enum Chords {
    Chord(Chord),
    Raw(String),
}

/// Mathematical image of a `Chord`.
#[verifier::ext_equal]
pub struct ChordView {
    pub root: Note,
    pub quality: Seq<char>,
    pub bass: Option<Note>,
}

/// Mathematical image of a `Chords` value.
#[verifier::ext_equal]
pub enum ChordsView {
    Chord(ChordView),
    Raw(Seq<char>),
}

impl View for Chord {
    type V = ChordView;

    open spec fn view(&self) -> ChordView {
        ChordView { root: self.root, quality: self.quality@, bass: self.bass }
    }
}

impl View for Chords {
    type V = ChordsView;

    open spec fn view(&self) -> ChordsView {
        match self {
            Chords::Chord(c) => ChordsView::Chord(c@),
            Chords::Raw(s) => ChordsView::Raw(s@),
        }
    }
}

/// Semitone offset of a letter above C.
pub open spec fn letter_pitch(l: NoteLetter) -> int {
    match l {
        NoteLetter::C => 0,
        NoteLetter::D => 2,
        NoteLetter::E => 4,
        NoteLetter::F => 5,
        NoteLetter::G => 7,
        NoteLetter::A => 9,
        NoteLetter::B => 11,
    }
}

/// Semitone shift of an accidental, as a residue modulo 12.
pub open spec fn accidental_shift(a: Accidental) -> int {
    match a {
        Accidental::Natural => 0,
        Accidental::Sharp => 1,
        Accidental::Flat => 11,
    }
}

/// The chromatic pitch class of a note: its position 0..11 on the
/// twelve-tone scale, ignoring spelling.
pub open spec fn pitch_class(n: Note) -> int {
    (letter_pitch(n.letter) + accidental_shift(n.accidental)) % 12
}

/// Whether transposition should prefer flat spellings for the result: it
/// does exactly when the original note was written with a flat.
pub open spec fn prefers_flat(n: Note) -> bool {
    n.accidental is Flat
}

/// The canonical spelling of a pitch class: naturals where a natural
/// exists, otherwise a sharp, or a flat when flats are preferred.
pub open spec fn spelled(pc: int, flat: bool) -> Note {
    if pc == 0 {
        Note { letter: NoteLetter::C, accidental: Accidental::Natural }
    } else if pc == 1 {
        if flat {
            Note { letter: NoteLetter::D, accidental: Accidental::Flat }
        } else {
            Note { letter: NoteLetter::C, accidental: Accidental::Sharp }
        }
    } else if pc == 2 {
        Note { letter: NoteLetter::D, accidental: Accidental::Natural }
    } else if pc == 3 {
        if flat {
            Note { letter: NoteLetter::E, accidental: Accidental::Flat }
        } else {
            Note { letter: NoteLetter::D, accidental: Accidental::Sharp }
        }
    } else if pc == 4 {
        Note { letter: NoteLetter::E, accidental: Accidental::Natural }
    } else if pc == 5 {
        Note { letter: NoteLetter::F, accidental: Accidental::Natural }
    } else if pc == 6 {
        if flat {
            Note { letter: NoteLetter::G, accidental: Accidental::Flat }
        } else {
            Note { letter: NoteLetter::F, accidental: Accidental::Sharp }
        }
    } else if pc == 7 {
        Note { letter: NoteLetter::G, accidental: Accidental::Natural }
    } else if pc == 8 {
        if flat {
            Note { letter: NoteLetter::A, accidental: Accidental::Flat }
        } else {
            Note { letter: NoteLetter::G, accidental: Accidental::Sharp }
        }
    } else if pc == 9 {
        Note { letter: NoteLetter::A, accidental: Accidental::Natural }
    } else if pc == 10 {
        if flat {
            Note { letter: NoteLetter::B, accidental: Accidental::Flat }
        } else {
            Note { letter: NoteLetter::A, accidental: Accidental::Sharp }
        }
    } else {
        Note { letter: NoteLetter::B, accidental: Accidental::Natural }
    }
}

/// What transposing a note by `d` semitones yields: the pitch class moves
/// by `d` modulo 12 and the result is re-spelled, preferring flats exactly
/// when the original was spelled with a flat.
pub open spec fn transpose_note_spec(n: Note, d: int) -> Note {
    spelled((pitch_class(n) + d) % 12, prefers_flat(n))
}

/// What transposing a chord yields: root and bass move independently, the
/// quality suffix is kept.
pub open spec fn transpose_chord_spec(c: ChordView, d: int) -> ChordView {
    ChordView {
        root: transpose_note_spec(c.root, d),
        quality: c.quality,
        bass: match c.bass {
            Some(b) => Some(transpose_note_spec(b, d)),
            None => None,
        },
    }
}

/// Raw bracket content is never touched by transposition.
pub open spec fn transpose_chords_spec(c: ChordsView, d: int) -> ChordsView {
    match c {
        ChordsView::Chord(ch) => ChordsView::Chord(transpose_chord_spec(ch, d)),
        ChordsView::Raw(s) => ChordsView::Raw(s),
    }
}

/// A note is canonically spelled if it is its own pitch class's spelling
/// under its own flat preference. `Fb`, `Cb`, `E#` and `B#` are not.
pub open spec fn canonical_note(n: Note) -> bool {
    n == spelled(pitch_class(n), prefers_flat(n))
}

/// The note letter a character names, if any.
pub open spec fn letter_of_char(c: char) -> Option<NoteLetter> {
    if c == 'A' {
        Some(NoteLetter::A)
    } else if c == 'B' {
        Some(NoteLetter::B)
    } else if c == 'C' {
        Some(NoteLetter::C)
    } else if c == 'D' {
        Some(NoteLetter::D)
    } else if c == 'E' {
        Some(NoteLetter::E)
    } else if c == 'F' {
        Some(NoteLetter::F)
    } else if c == 'G' {
        Some(NoteLetter::G)
    } else {
        None
    }
}

/// A whole sequence read as a note name: a letter with at most one
/// trailing accidental mark.
pub open spec fn parse_note_spec(s: Seq<char>) -> Option<Note> {
    if s.len() == 1 {
        match letter_of_char(s[0]) {
            Some(l) => Some(Note { letter: l, accidental: Accidental::Natural }),
            None => None,
        }
    } else if s.len() == 2 && s[1] == '#' {
        match letter_of_char(s[0]) {
            Some(l) => Some(Note { letter: l, accidental: Accidental::Sharp }),
            None => None,
        }
    } else if s.len() == 2 && s[1] == 'b' {
        match letter_of_char(s[0]) {
            Some(l) => Some(Note { letter: l, accidental: Accidental::Flat }),
            None => None,
        }
    } else {
        None
    }
}

/// How bracket content is read: an optional leading root letter with an
/// optional accidental, then a free-form quality, then an optional
/// `/bass`. Content without a leading note letter stays raw.
pub open spec fn parse_chords_spec(s: Seq<char>) -> ChordsView {
    if s.len() == 0 {
        ChordsView::Raw(s)
    } else {
        match letter_of_char(s[0]) {
            None => ChordsView::Raw(s),
            Some(l) => {
                if s.len() >= 2 && s[1] == '#' {
                    parse_tail_spec(Note { letter: l, accidental: Accidental::Sharp }, s.skip(2))
                } else if s.len() >= 2 && s[1] == 'b' {
                    parse_tail_spec(Note { letter: l, accidental: Accidental::Flat }, s.skip(2))
                } else {
                    parse_tail_spec(Note { letter: l, accidental: Accidental::Natural }, s.skip(1))
                }
            },
        }
    }
}

/// The quality/bass split of everything after the root: the bass is taken
/// from the first slash whose tail reads as a note name.
pub open spec fn parse_tail_spec(root: Note, rest: Seq<char>) -> ChordsView {
    match find_char(rest, '/') {
        Some(i) => match parse_note_spec(rest.skip(i + 1)) {
            Some(b) => ChordsView::Chord(
                ChordView { root, quality: rest.take(i), bass: Some(b) },
            ),
            None => ChordsView::Chord(ChordView { root, quality: rest, bass: None }),
        },
        None => ChordsView::Chord(ChordView { root, quality: rest, bass: None }),
    }
}

/// The rendered name of a note under a note-naming convention. Under `H`
/// notation the natural eleventh semitone is written `H` and its flatted
/// form `B`; under `B` notation they are `B` and `Bb`.
pub open spec fn note_name_spec(n: Note, bn: BNotation) -> Seq<char> {
    if n.letter is B {
        match n.accidental {
            Accidental::Natural => if bn is H {
                seq!['H']
            } else {
                seq!['B']
            },
            Accidental::Sharp => if bn is H {
                seq!['H', '#']
            } else {
                seq!['B', '#']
            },
            Accidental::Flat => if bn is H {
                seq!['B']
            } else {
                seq!['B', 'b']
            },
        }
    } else {
        match n.accidental {
            Accidental::Natural => seq![letter_char(n.letter)],
            Accidental::Sharp => seq![letter_char(n.letter), '#'],
            Accidental::Flat => seq![letter_char(n.letter), 'b'],
        }
    }
}

/// The character of a note letter.
pub open spec fn letter_char(l: NoteLetter) -> char {
    match l {
        NoteLetter::A => 'A',
        NoteLetter::B => 'B',
        NoteLetter::C => 'C',
        NoteLetter::D => 'D',
        NoteLetter::E => 'E',
        NoteLetter::F => 'F',
        NoteLetter::G => 'G',
    }
}

/// The rendered form of bracket content: root name, quality, and the bass
/// name after a slash; raw content verbatim.
pub open spec fn chords_str_spec(c: ChordsView, bn: BNotation) -> Seq<char> {
    match c {
        ChordsView::Raw(s) => s,
        ChordsView::Chord(ch) => note_name_spec(ch.root, bn) + ch.quality + match ch.bass {
            Some(b) => seq!['/'] + note_name_spec(b, bn),
            None => Seq::<char>::empty(),
        },
    }
}

impl Note {
    /// The chromatic pitch class of this note.
    pub fn pitch_class(&self) -> (r: u8)
        ensures
            r as int == pitch_class(*self),
            r < 12,
    {
        let base: u8 = match self.letter {
            NoteLetter::C => 0,
            NoteLetter::D => 2,
            NoteLetter::E => 4,
            NoteLetter::F => 5,
            NoteLetter::G => 7,
            NoteLetter::A => 9,
            NoteLetter::B => 11,
        };
        let shift: u8 = match self.accidental {
            Accidental::Natural => 0,
            Accidental::Sharp => 1,
            Accidental::Flat => 11,
        };
        (base + shift) % 12
    }

    /// The canonical spelling of a pitch class.
    pub fn spelled_note(pc: u8, flat: bool) -> (r: Note)
        requires
            pc < 12,
        ensures
            r == spelled(pc as int, flat),
    {
        match pc {
            0 => Note { letter: NoteLetter::C, accidental: Accidental::Natural },
            1 => if flat {
                Note { letter: NoteLetter::D, accidental: Accidental::Flat }
            } else {
                Note { letter: NoteLetter::C, accidental: Accidental::Sharp }
            },
            2 => Note { letter: NoteLetter::D, accidental: Accidental::Natural },
            3 => if flat {
                Note { letter: NoteLetter::E, accidental: Accidental::Flat }
            } else {
                Note { letter: NoteLetter::D, accidental: Accidental::Sharp }
            },
            4 => Note { letter: NoteLetter::E, accidental: Accidental::Natural },
            5 => Note { letter: NoteLetter::F, accidental: Accidental::Natural },
            6 => if flat {
                Note { letter: NoteLetter::G, accidental: Accidental::Flat }
            } else {
                Note { letter: NoteLetter::F, accidental: Accidental::Sharp }
            },
            7 => Note { letter: NoteLetter::G, accidental: Accidental::Natural },
            8 => if flat {
                Note { letter: NoteLetter::A, accidental: Accidental::Flat }
            } else {
                Note { letter: NoteLetter::G, accidental: Accidental::Sharp }
            },
            9 => Note { letter: NoteLetter::A, accidental: Accidental::Natural },
            10 => if flat {
                Note { letter: NoteLetter::B, accidental: Accidental::Flat }
            } else {
                Note { letter: NoteLetter::A, accidental: Accidental::Sharp }
            },
            _ => Note { letter: NoteLetter::B, accidental: Accidental::Natural },
        }
    }

    /// Transpose this note by `d` semitones, re-spelling the result.
    pub fn transpose(&self, d: isize) -> (r: Note)
        ensures
            r == transpose_note_spec(*self, d as int),
    {
        let pc = self.pitch_class();
        proof {
            lemma_mod_bound(d as int, 12);
        }
        let m: isize = d.checked_rem_euclid(12).unwrap();
        let mu: u8 = m as u8;
        let pc2: u8 = (pc + mu) % 12;
        proof {
            lemma_small_mod(pc as nat, 12);
            lemma_add_mod_noop_right(pc as int, d as int, 12);
        }
        Note::spelled_note(pc2, matches!(self.accidental, Accidental::Flat))
    }

    /// The rendered name of this note.
    pub fn name(&self, bn: BNotation) -> (r: String)
        ensures
            r@ == note_name_spec(*self, bn),
    {
        proof {
            reveal_strlit("A");
            reveal_strlit("B");
            reveal_strlit("C");
            reveal_strlit("D");
            reveal_strlit("E");
            reveal_strlit("F");
            reveal_strlit("G");
            reveal_strlit("H");
            reveal_strlit("#");
            reveal_strlit("b");
        }
        let mut out = String::new();
        if matches!(self.letter, NoteLetter::B) {
            match self.accidental {
                Accidental::Natural => {
                    if matches!(bn, BNotation::H) {
                        out.append("H");
                    } else {
                        out.append("B");
                    }
                },
                Accidental::Sharp => {
                    if matches!(bn, BNotation::H) {
                        out.append("H");
                    } else {
                        out.append("B");
                    }
                    out.append("#");
                },
                Accidental::Flat => {
                    out.append("B");
                    if !matches!(bn, BNotation::H) {
                        out.append("b");
                    }
                },
            }
        } else {
            match self.letter {
                NoteLetter::A => out.append("A"),
                NoteLetter::C => out.append("C"),
                NoteLetter::D => out.append("D"),
                NoteLetter::E => out.append("E"),
                NoteLetter::F => out.append("F"),
                NoteLetter::G => out.append("G"),
                NoteLetter::B => out.append("B"),
            };
            match self.accidental {
                Accidental::Natural => (),
                Accidental::Sharp => out.append("#"),
                Accidental::Flat => out.append("b"),
            };
        }
        proof {
            assert(out@ =~= note_name_spec(*self, bn));
        }
        out
    }
}

/// The note letter a character names, if any.
fn letter_of(c: char) -> (r: Option<NoteLetter>)
    ensures
        r == letter_of_char(c),
{
    match c {
        'A' => Some(NoteLetter::A),
        'B' => Some(NoteLetter::B),
        'C' => Some(NoteLetter::C),
        'D' => Some(NoteLetter::D),
        'E' => Some(NoteLetter::E),
        'F' => Some(NoteLetter::F),
        'G' => Some(NoteLetter::G),
        _ => None,
    }
}

/// A whole string read as a note name.
fn parse_note(s: &str) -> (r: Option<Note>)
    ensures
        r == parse_note_spec(s@),
{
    let len: usize = s.unicode_len();
    if len == 1 {
        match letter_of(s.get_char(0)) {
            Some(l) => Some(Note { letter: l, accidental: Accidental::Natural }),
            None => None,
        }
    } else if len == 2 {
        let acc = s.get_char(1);
        if acc != '#' && acc != 'b' {
            return None;
        }
        match letter_of(s.get_char(0)) {
            Some(l) => Some(
                Note {
                    letter: l,
                    accidental: if acc == '#' {
                        Accidental::Sharp
                    } else {
                        Accidental::Flat
                    },
                },
            ),
            None => None,
        }
    } else {
        None
    }
}

impl Chords {
    /// Read one chord bracket's content. Total: content that does not
    /// look like a chord is kept raw, never rejected.
    pub fn parse(text: &str) -> (r: Chords)
        ensures
            r@ == parse_chords_spec(text@),
    {
        let len: usize = text.unicode_len();
        if len == 0 {
            return Chords::Raw(text.to_owned());
        }
        let l = match letter_of(text.get_char(0)) {
            Some(l) => l,
            None => {
                return Chords::Raw(text.to_owned());
            },
        };
        let mut acc = Accidental::Natural;
        let mut k: usize = 1;
        if len >= 2 {
            let c1 = text.get_char(1);
            if c1 == '#' {
                acc = Accidental::Sharp;
                k = 2;
            } else if c1 == 'b' {
                acc = Accidental::Flat;
                k = 2;
            }
        }
        let root = Note { letter: l, accidental: acc };
        let rest = text.substring_char(k, len);
        proof {
            assert(rest@ =~= text@.skip(k as int));
        }
        let rest_len: usize = len - k;
        let chord = match find_char_in(rest, '/') {
            Some(i) => {
                let bass_str = rest.substring_char(i + 1, rest_len);
                proof {
                    assert(bass_str@ =~= rest@.skip(i + 1));
                }
                match parse_note(bass_str) {
                    Some(b) => {
                        let q = rest.substring_char(0, i);
                        proof {
                            assert(q@ =~= rest@.take(i as int));
                        }
                        Chord { root, quality: q.to_owned(), bass: Some(b) }
                    },
                    None => Chord { root, quality: rest.to_owned(), bass: None },
                }
            },
            None => Chord { root, quality: rest.to_owned(), bass: None },
        };
        Chords::Chord(chord)
    }

    /// Render this bracket content under a note-naming convention.
    pub fn to_string(&self, b_notation: BNotation) -> (r: String)
        ensures
            r@ == chords_str_spec(self@, b_notation),
    {
        match self {
            Chords::Raw(s) => s.clone(),
            Chords::Chord(c) => {
                let mut out = c.root.name(b_notation);
                out.append(c.quality.as_str());
                match &c.bass {
                    Some(b) => {
                        proof {
                            reveal_strlit("/");
                        }
                        out.append("/");
                        let bass_name = b.name(b_notation);
                        out.append(bass_name.as_str());
                    },
                    None => (),
                }
                proof {
                    assert(out@ =~= chords_str_spec(self@, b_notation));
                }
                out
            },
        }
    }

    /// Transpose by `d` semitones: root and bass move independently, the
    /// quality suffix and raw content are kept.
    pub fn transpose(&self, d: isize) -> (r: Chords)
        ensures
            r@ == transpose_chords_spec(self@, d as int),
    {
        match self {
            Chords::Raw(s) => Chords::Raw(s.clone()),
            Chords::Chord(c) => Chords::Chord(
                Chord {
                    root: c.root.transpose(d),
                    quality: c.quality.clone(),
                    bass: match &c.bass {
                        Some(b) => Some(b.transpose(d)),
                        None => None,
                    },
                },
            ),
        }
    }
}

/// The spelling table is faithful: a spelled note names the pitch class it
/// was built from.
pub proof fn lemma_spelled_pitch_class(pc: int, flat: bool)
    requires
        0 <= pc < 12,
    ensures
        pitch_class(spelled(pc, flat)) == pc,
{
}

/// Every pitch class lies in 0..11.
pub proof fn lemma_pitch_class_bound(n: Note)
    ensures
        0 <= pitch_class(n) < 12,
{
    lemma_mod_bound(letter_pitch(n.letter) + accidental_shift(n.accidental), 12);
}

/// Transposition moves the pitch class by exactly `d` modulo 12.
pub proof fn lemma_transpose_shifts_pitch_class(n: Note, d: int)
    ensures
        pitch_class(transpose_note_spec(n, d)) == (pitch_class(n) + d) % 12,
{
    lemma_pitch_class_bound(n);
    lemma_mod_bound(pitch_class(n) + d, 12);
    lemma_spelled_pitch_class((pitch_class(n) + d) % 12, prefers_flat(n));
}

/// Transposing a note by `d` and back by `-d` restores its pitch class;
/// only the spelling may differ.
pub proof fn lemma_transpose_note_round_trip(n: Note, d: int)
    ensures
        pitch_class(transpose_note_spec(transpose_note_spec(n, d), -d)) == pitch_class(n),
{
    let p = pitch_class(n);
    lemma_pitch_class_bound(n);
    lemma_transpose_shifts_pitch_class(n, d);
    lemma_transpose_shifts_pitch_class(transpose_note_spec(n, d), -d);
    lemma_add_mod_noop_right(-d, p + d, 12);
    lemma_small_mod(p as nat, 12);
}

/// Transposing a chord up by `n` semitones and back down returns a chord
/// with the same chromatic pitch classes for root and bass and the same
/// quality; the spelling of the notes may legitimately differ.
pub proof fn lemma_transpose_identity(c: ChordView, n: int)
    ensures
        ({
            let back = transpose_chord_spec(transpose_chord_spec(c, n), -n);
            &&& pitch_class(back.root) == pitch_class(c.root)
            &&& back.quality == c.quality
            &&& match (back.bass, c.bass) {
                (Some(b2), Some(b1)) => pitch_class(b2) == pitch_class(b1),
                (None, None) => true,
                _ => false,
            }
        }),
{
    lemma_transpose_note_round_trip(c.root, n);
    match c.bass {
        Some(b) => lemma_transpose_note_round_trip(b, n),
        None => (),
    }
}

/// Transposing a canonically spelled note by a full octave returns the
/// note unchanged, spelling included.
pub proof fn lemma_transpose_note_cycle(n: Note)
    requires
        canonical_note(n),
    ensures
        transpose_note_spec(n, 12) == n,
{
    let p = pitch_class(n);
    lemma_pitch_class_bound(n);
    lemma_mod_add_multiples_vanish(p, 12);
    lemma_small_mod(p as nat, 12);
    assert((p + 12) % 12 == p);
}

/// Transposing a chord whose notes are canonically spelled by a full
/// octave returns it unchanged: same pitch classes and, because the flat
/// preference is taken from the chord itself on every call, the same
/// spelling.
pub proof fn lemma_transpose_cycle(c: ChordView)
    requires
        canonical_note(c.root),
        match c.bass {
            Some(b) => canonical_note(b),
            None => true,
        },
    ensures
        transpose_chord_spec(c, 12) == c,
{
    lemma_transpose_note_cycle(c.root);
    match c.bass {
        Some(b) => lemma_transpose_note_cycle(b),
        None => (),
    }
}

/// A rendered chord reads back as itself: under English note names,
/// parsing the rendered form of a chord yields that chord again,
/// provided its quality neither opens with an accidental mark nor holds
/// a slash of its own. This is the chord-level half of round-trip
/// stability; `Db5` shows why the first proviso is needed, `D7/A` the
/// second.
pub proof fn lemma_chord_render_parse_round_trip(c: ChordView)
    requires
        c.quality.len() > 0 ==> c.quality[0] != '#' && c.quality[0] != 'b',
        forall|i: int| 0 <= i < c.quality.len() ==> c.quality[i] != '/',
    ensures
        parse_chords_spec(chords_str_spec(ChordsView::Chord(c), BNotation::B)) == ChordsView::Chord(
            c,
        ),
{
    let name = note_name_spec(c.root, BNotation::B);
    let s = chords_str_spec(ChordsView::Chord(c), BNotation::B);
    let k = name.len() as int;
    assert(letter_of_char(s[0]) == Some(c.root.letter));
    match c.bass {
        None => {
            assert(s =~= name + c.quality);
            let rest = s.skip(k);
            assert(rest =~= c.quality);
            if c.root.accidental is Natural {
                assert(k == 1);
                if s.len() >= 2 {
                    assert(s[1] == c.quality[0]);
                }
                lemma_find_char_none(rest, '/');
                assert(parse_chords_spec(s) =~~= ChordsView::Chord(c));
            } else {
                assert(k == 2);
                assert(s[1] == '#' || s[1] == 'b');
                lemma_find_char_none(rest, '/');
                assert(parse_chords_spec(s) =~~= ChordsView::Chord(c));
            }
        },
        Some(b) => {
            let bass_name = note_name_spec(b, BNotation::B);
            assert(s =~= name + c.quality + (seq!['/'] + bass_name));
            let rest = s.skip(k);
            assert(rest =~= c.quality + seq!['/'] + bass_name);
            let q = c.quality.len() as int;
            assert(rest[q] == '/');
            assert(forall|j: int| 0 <= j < q ==> rest[j] == c.quality[j]);
            lemma_find_char_at(rest, '/', q);
            assert(rest.skip(q + 1) =~= bass_name);
            assert(parse_note_spec(bass_name) == Some(b));
            assert(rest.take(q) =~= c.quality);
            if c.root.accidental is Natural {
                assert(k == 1);
                if s.len() >= 2 {
                    assert(s[1] == rest[0]);
                    if c.quality.len() > 0 {
                        assert(rest[0] == c.quality[0]);
                    } else {
                        assert(rest[0] == '/');
                    }
                }
                assert(parse_chords_spec(s) =~~= ChordsView::Chord(c));
            } else {
                assert(k == 2);
                assert(s[1] == '#' || s[1] == 'b');
                assert(parse_chords_spec(s) =~~= ChordsView::Chord(c));
            }
        },
    }
}

/// Raw bracket content that does not open with a note letter reads back
/// as itself: rendering keeps it verbatim and parsing keeps it raw.
pub proof fn lemma_raw_render_parse_round_trip(s: Seq<char>)
    requires
        s.len() > 0 ==> letter_of_char(s[0]) is None,
    ensures
        parse_chords_spec(chords_str_spec(ChordsView::Raw(s), BNotation::B)) == ChordsView::Raw(
            s,
        ),
{
}

/// Reading bracket content and rendering it back under English note
/// names is the identity on the text: parsing only partitions the
/// characters into root, quality and bass, and rendering rejoins the
/// same characters. This is the chord-level piece of round-trip
/// stability of the whole pipeline.
pub proof fn lemma_chord_parse_render_identity(s: Seq<char>)
    ensures
        chords_str_spec(parse_chords_spec(s), BNotation::B) == s,
{
    if s.len() == 0 {
    } else {
        match letter_of_char(s[0]) {
            None => (),
            Some(l) => {
                let k: int = if s.len() >= 2 && (s[1] == '#' || s[1] == 'b') {
                    2
                } else {
                    1
                };
                let root = if k == 2 && s[1] == '#' {
                    Note { letter: l, accidental: Accidental::Sharp }
                } else if k == 2 {
                    Note { letter: l, accidental: Accidental::Flat }
                } else {
                    Note { letter: l, accidental: Accidental::Natural }
                };
                let name = note_name_spec(root, BNotation::B);
                assert(name =~= s.take(k));
                let rest = s.skip(k);
                match find_char(rest, '/') {
                    Some(i) => {
                        lemma_find_char_some(rest, '/', i);
                        match parse_note_spec(rest.skip(i + 1)) {
                            Some(b) => {
                                assert(note_name_spec(b, BNotation::B) =~= rest.skip(i + 1));
                                assert(name + rest.take(i) + (seq!['/'] + note_name_spec(
                                    b,
                                    BNotation::B,
                                )) =~= s);
                            },
                            None => {
                                assert(name + rest + Seq::<char>::empty() =~= s);
                            },
                        }
                    },
                    None => {
                        assert(name + rest + Seq::<char>::empty() =~= s);
                    },
                }
            },
        }
    }
}

} // verus!
