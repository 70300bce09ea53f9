use libchordr::chord::{Accidental, Chord, Chords, Note, NoteLetter};
use libchordr::format::BNotation;

fn parsed(text: &str) -> Chords {
    Chords::parse(text)
}

fn rendered(c: &Chords) -> String {
    c.to_string(BNotation::B)
}

#[test]
fn parse_plain_chord() {
    assert_eq!(
        parsed("D"),
        Chords::Chord(Chord {
            root: Note { letter: NoteLetter::D, accidental: Accidental::Natural },
            quality: String::new(),
            bass: None,
        })
    );
}

#[test]
fn parse_chord_with_quality_and_bass() {
    assert_eq!(
        parsed("Abm7/Eb"),
        Chords::Chord(Chord {
            root: Note { letter: NoteLetter::A, accidental: Accidental::Flat },
            quality: "m7".to_string(),
            bass: Some(Note { letter: NoteLetter::E, accidental: Accidental::Flat }),
        })
    );
}

#[test]
fn parse_keeps_unknown_content_raw() {
    assert_eq!(parsed("x7"), Chords::Raw("x7".to_string()));
    assert_eq!(parsed(""), Chords::Raw(String::new()));
    assert_eq!(rendered(&parsed("x7")), "x7");
}

#[test]
fn parse_slash_without_note_stays_in_quality() {
    assert_eq!(
        parsed("D7/9"),
        Chords::Chord(Chord {
            root: Note { letter: NoteLetter::D, accidental: Accidental::Natural },
            quality: "7/9".to_string(),
            bass: None,
        })
    );
}

#[test]
fn render_b_notation() {
    assert_eq!(parsed("Bb").to_string(BNotation::B), "Bb");
    assert_eq!(parsed("Bb").to_string(BNotation::H), "B");
    assert_eq!(parsed("B").to_string(BNotation::B), "B");
    assert_eq!(parsed("B").to_string(BNotation::H), "H");
    assert_eq!(parsed("Bm7/A").to_string(BNotation::H), "Hm7/A");
}

#[test]
fn transpose_up() {
    assert_eq!(rendered(&parsed("F#m").transpose(3)), "Am");
    assert_eq!(rendered(&parsed("D").transpose(2)), "E");
    assert_eq!(rendered(&parsed("Bb/D").transpose(2)), "C/E");
}

#[test]
fn transpose_prefers_sharp_unless_source_was_flat() {
    assert_eq!(rendered(&parsed("C").transpose(1)), "C#");
    assert_eq!(rendered(&parsed("Db").transpose(2)), "Eb");
    assert_eq!(rendered(&parsed("A").transpose(1)), "A#");
}

#[test]
fn transpose_down_across_octave() {
    assert_eq!(rendered(&parsed("C").transpose(-1)), "B");
    assert_eq!(rendered(&parsed("Dm").transpose(-14)), "Cm");
}

// Transposing up and back down restores the chromatic pitch class.
#[test]
fn transpose_round_trip_restores_pitch_class() {
    for d in [-13isize, -7, -1, 0, 1, 5, 11, 25] {
        let c = parsed("Gbm7/Cb");
        let back = c.transpose(d).transpose(-d);
        let (orig, again) = match (&c, &back) {
            (Chords::Chord(a), Chords::Chord(b)) => (a.clone(), b.clone()),
            _ => panic!("expected parsed chords"),
        };
        assert_eq!(orig.root.pitch_class(), again.root.pitch_class());
        assert_eq!(
            orig.bass.unwrap().pitch_class(),
            again.bass.unwrap().pitch_class()
        );
        assert_eq!(orig.quality, again.quality);
    }
}

// A whole octave returns a canonically spelled chord unchanged.
#[test]
fn transpose_full_octave_is_identity() {
    for text in ["C", "C#", "Db", "Ebm7", "F#/A#", "Bb/D", "G"] {
        let c = parsed(text);
        assert_eq!(c.transpose(12), c);
        assert_eq!(rendered(&c.transpose(12)), text);
    }
}

// A non-canonical spelling is normalized by transposition: its pitch
// class survives, its spelling does not.
#[test]
fn transpose_respells_non_canonical_notes() {
    assert_eq!(rendered(&parsed("Fb").transpose(12)), "E");
    assert_eq!(rendered(&parsed("B#").transpose(12)), "C");
}

#[test]
fn raw_content_is_never_transposed() {
    assert_eq!(parsed("x7").transpose(5), Chords::Raw("x7".to_string()));
}

// Rendering a chord and reading the rendered form back yields the same
// chord.
#[test]
fn render_parse_round_trip() {
    for text in ["D", "F#m7", "Bb/D", "Am7/G", "D7/9", "", "x7"] {
        let c = parsed(text);
        assert_eq!(Chords::parse(&rendered(&c)), c);
    }
}

#[test]
fn pitch_classes() {
    let pc = |l: NoteLetter, a: Accidental| Note { letter: l, accidental: a }.pitch_class();
    assert_eq!(pc(NoteLetter::C, Accidental::Natural), 0);
    assert_eq!(pc(NoteLetter::C, Accidental::Sharp), 1);
    assert_eq!(pc(NoteLetter::D, Accidental::Flat), 1);
    assert_eq!(pc(NoteLetter::B, Accidental::Natural), 11);
    assert_eq!(pc(NoteLetter::C, Accidental::Flat), 11);
    assert_eq!(pc(NoteLetter::B, Accidental::Sharp), 0);
}
