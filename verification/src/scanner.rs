use vstd::prelude::*;
use crate::token::{Lexeme, LexemeView};

verus! {

/// The characters the scanner recognizes positionally; every other
/// character belongs to a literal run.
pub open spec fn is_delimiter(c: char) -> bool {
    c == '#' || c == '\n' || c == '[' || c == ']' || c == '>' || c == ':' || c == '!' || c == '$'
}

/// The lexeme a delimiter character scans to.
pub open spec fn delimiter_lexeme(c: char) -> LexemeView {
    if c == '#' {
        LexemeView::HeaderStart
    } else if c == '\n' {
        LexemeView::Newline
    } else if c == '[' {
        LexemeView::ChordStart
    } else if c == ']' {
        LexemeView::ChordEnd
    } else if c == '>' {
        LexemeView::QuoteStart
    } else if c == ':' {
        LexemeView::Colon
    } else if c == '!' {
        LexemeView::ChorusMark
    } else {
        LexemeView::BridgeMark
    }
}

/// Put one literal character in front of an already scanned tail: it
/// joins the literal run the tail starts with, or opens a new run.
pub open spec fn cons_literal(c: char, rest: Seq<LexemeView>) -> Seq<LexemeView> {
    if rest.len() > 0 && rest[0] is Literal {
        seq![LexemeView::Literal(seq![c] + rest[0]->Literal_0)] + rest.skip(1)
    } else {
        seq![LexemeView::Literal(seq![c])] + rest
    }
}

/// The lexeme sequence of a text: delimiters stand for themselves,
/// maximal runs of other characters become one `Literal` each, and a
/// single `Eof` closes the sequence.
pub open spec fn scan_spec(s: Seq<char>) -> Seq<LexemeView>
    decreases s.len(),
{
    if s.len() == 0 {
        seq![LexemeView::Eof]
    } else if is_delimiter(s[0]) {
        seq![delimiter_lexeme(s[0])] + scan_spec(s.skip(1))
    } else {
        cons_literal(s[0], scan_spec(s.skip(1)))
    }
}

/// Length of the maximal run of non-delimiter characters at the head.
pub open spec fn run_len(s: Seq<char>) -> nat
    decreases s.len(),
{
    if s.len() == 0 || is_delimiter(s[0]) {
        0
    } else {
        1 + run_len(s.skip(1))
    }
}

/// The views of a lexeme vector.
pub open spec fn lexemes_view(s: Seq<Lexeme>) -> Seq<LexemeView> {
    s.map_values(|l: Lexeme| l@)
}

proof fn lemma_run_len_bounds(s: Seq<char>)
    ensures
        run_len(s) <= s.len(),
        run_len(s) < s.len() ==> is_delimiter(s[run_len(s) as int]),
        forall|k: int| 0 <= k < run_len(s) ==> !is_delimiter(s[k]),
    decreases s.len(),
{
    if s.len() > 0 && !is_delimiter(s[0]) {
        lemma_run_len_bounds(s.skip(1));
        assert forall|k: int| 0 <= k < run_len(s) implies !is_delimiter(s[k]) by {
            if k > 0 {
                assert(s[k] == s.skip(1)[k - 1]);
            }
        }
        if run_len(s) < s.len() {
            assert(s[run_len(s) as int] == s.skip(1)[run_len(s.skip(1)) as int]);
        }
    }
}

proof fn lemma_run_len_exact(s: Seq<char>, m: int)
    requires
        0 <= m <= s.len(),
        forall|k: int| 0 <= k < m ==> !is_delimiter(s[k]),
        m < s.len() ==> is_delimiter(s[m]),
    ensures
        run_len(s) == m,
    decreases m,
{
    if m > 0 {
        assert(forall|k: int| 0 <= k < s.len() - 1 ==> s.skip(1)[k] == s[k + 1]);
        lemma_run_len_exact(s.skip(1), m - 1);
    }
}

/// Scanning a text that starts with a literal run yields that whole run
/// as one lexeme, then the scan of what follows it.
proof fn lemma_scan_run(s: Seq<char>)
    requires
        s.len() > 0,
        !is_delimiter(s[0]),
    ensures
        run_len(s) <= s.len(),
        scan_spec(s) == seq![LexemeView::Literal(s.take(run_len(s) as int))] + scan_spec(
            s.skip(run_len(s) as int),
        ),
    decreases s.len(),
{
    lemma_run_len_bounds(s);
    let s1 = s.skip(1);
    let r1 = run_len(s1);
    if s1.len() == 0 || is_delimiter(s1[0]) {
        // the run is this single character
        if s1.len() == 0 {
            assert(scan_spec(s1) == seq![LexemeView::Eof]);
        }
        assert(!(scan_spec(s1)[0] is Literal));
        assert(s.take(1) =~= seq![s[0]]);
        assert(scan_spec(s) =~= seq![LexemeView::Literal(s.take(run_len(s) as int))]
            + scan_spec(s.skip(run_len(s) as int)));
    } else {
        lemma_scan_run(s1);
        let tail = scan_spec(s1.skip(r1 as int));
        assert(scan_spec(s1)[0] == LexemeView::Literal(s1.take(r1 as int)));
        assert(scan_spec(s1).skip(1) =~= tail);
        assert(seq![s[0]] + s1.take(r1 as int) =~= s.take(r1 + 1int));
        assert(s1.skip(r1 as int) =~= s.skip(r1 + 1int));
        assert(scan_spec(s) =~= seq![LexemeView::Literal(s.take(run_len(s) as int))]
            + scan_spec(s.skip(run_len(s) as int)));
    }
}

/// In the lexeme sequence of any text, `Eof` stands exactly once, at the
/// very end.
pub proof fn lemma_scan_spec_shape(s: Seq<char>)
    ensures
        scan_spec(s).len() >= 1,
        scan_spec(s).last() is Eof,
        forall|j: int| 0 <= j < scan_spec(s).len() - 1 ==> !(#[trigger] scan_spec(s)[j] is Eof),
    decreases s.len(),
{
    if s.len() == 0 {
    } else if is_delimiter(s[0]) {
        lemma_scan_spec_shape(s.skip(1));
        assert forall|j: int| 0 <= j < scan_spec(s).len() - 1 implies !(#[trigger] scan_spec(
            s,
        )[j] is Eof) by {
            if j > 0 {
                assert(scan_spec(s)[j] == scan_spec(s.skip(1))[j - 1]);
            }
        }
    } else {
        lemma_scan_spec_shape(s.skip(1));
        let rest = scan_spec(s.skip(1));
        if rest[0] is Literal {
            assert(rest.len() >= 2);
            assert forall|j: int| 0 <= j < scan_spec(s).len() - 1 implies !(#[trigger] scan_spec(
                s,
            )[j] is Eof) by {
                if j > 0 {
                    assert(scan_spec(s)[j] == rest.skip(1)[j - 1]);
                    assert(rest.skip(1)[j - 1] == rest[j]);
                }
            }
            assert(scan_spec(s).last() == rest.last());
        } else {
            assert forall|j: int| 0 <= j < scan_spec(s).len() - 1 implies !(#[trigger] scan_spec(
                s,
            )[j] is Eof) by {
                if j > 0 {
                    assert(scan_spec(s)[j] == rest[j - 1]);
                }
            }
            assert(scan_spec(s).last() == rest.last());
        }
    }
}

/// The lexeme a delimiter character scans to, if it is a delimiter.
fn delimiter_of(c: char) -> (r: Option<Lexeme>)
    ensures
        match r {
            Some(l) => is_delimiter(c) && l@ == delimiter_lexeme(c),
            None => !is_delimiter(c),
        },
{
    match c {
        '#' => Some(Lexeme::HeaderStart),
        '\n' => Some(Lexeme::Newline),
        '[' => Some(Lexeme::ChordStart),
        ']' => Some(Lexeme::ChordEnd),
        '>' => Some(Lexeme::QuoteStart),
        ':' => Some(Lexeme::Colon),
        '!' => Some(Lexeme::ChorusMark),
        '$' => Some(Lexeme::BridgeMark),
        _ => None,
    }
}

/// Split raw text into lexemes. A single pass; pure, so re-running it on
/// the same text yields the same sequence, and the result always ends
/// with exactly one `Eof`.
pub fn scan(text: &str) -> (r: Vec<Lexeme>)
    ensures
        lexemes_view(r@) == scan_spec(text@),
{
    let len: usize = text.unicode_len();
    let mut out: Vec<Lexeme> = Vec::new();
    let mut i: usize = 0;
    proof {
        assert(text@.skip(0) =~= text@);
        assert(lexemes_view(out@) + scan_spec(text@.skip(0)) =~= scan_spec(text@));
    }
    while i < len
        invariant
            len == text@.len(),
            0 <= i <= len,
            lexemes_view(out@) + scan_spec(text@.skip(i as int)) == scan_spec(text@),
        decreases len - i,
    {
        let ghost prefix = lexemes_view(out@);
        let ghost rest = text@.skip(i as int);
        let c = text.get_char(i);
        proof {
            assert(rest[0] == c);
        }
        match delimiter_of(c) {
            Some(l) => {
                proof {
                    assert(rest.skip(1) =~= text@.skip(i + 1));
                    assert(lexemes_view(out@.push(l)) =~= prefix.push(l@));
                    assert(prefix.push(l@) + scan_spec(text@.skip(i + 1)) =~= prefix + scan_spec(
                        rest,
                    ));
                }
                out.push(l);
                i += 1;
            },
            None => {
                let start = i;
                let mut j = i + 1;
                loop
                    invariant
                        len == text@.len(),
                        start < j <= len,
                        forall|k: int| start <= k < j ==> !is_delimiter(text@[k]),
                    ensures
                        start < j <= len,
                        forall|k: int| start <= k < j ==> !is_delimiter(text@[k]),
                        j < len ==> is_delimiter(text@[j as int]),
                    decreases len - j,
                {
                    if j >= len {
                        break;
                    }
                    if matches!(delimiter_of(text.get_char(j)), Some(_)) {
                        break;
                    }
                    j += 1;
                }
                let lit = text.substring_char(start, j);
                proof {
                    assert(forall|k: int| 0 <= k < rest.len() ==> rest[k] == text@[i + k]);
                    if j < len {
                        assert(rest[j - start] == text@[j as int]);
                    }
                    lemma_run_len_exact(rest, j - start);
                    lemma_scan_run(rest);
                    assert(lit@ =~= rest.take(run_len(rest) as int));
                    assert(rest.skip(run_len(rest) as int) =~= text@.skip(j as int));
                }
                let l = Lexeme::Literal(lit.to_owned());
                proof {
                    assert(lexemes_view(out@.push(l)) =~= prefix.push(l@));
                    assert(prefix.push(l@) + scan_spec(text@.skip(j as int)) =~= prefix
                        + scan_spec(rest));
                }
                out.push(l);
                i = j;
            },
        }
    }
    proof {
        assert(text@.skip(len as int) =~= Seq::<char>::empty());
        assert(lexemes_view(out@.push(Lexeme::Eof)) =~= lexemes_view(out@).push(LexemeView::Eof));
        assert(lexemes_view(out@).push(LexemeView::Eof) =~= lexemes_view(out@) + scan_spec(
            text@.skip(len as int),
        ));
    }
    out.push(Lexeme::Eof);
    out
}

} // verus!
