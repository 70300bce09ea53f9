//! A verified core for the chorddown chord-sheet notation: scanning,
//! tokenizing, parsing, chord transposition and rendering back to
//! normalized chorddown text or to a markup tree for display.
//!
//! The pipeline is pure and total: raw text is scanned into lexemes,
//! tokenized by a finite-state machine that records diagnostics instead
//! of failing, parsed into a tree of sections, and rendered by one of
//! two converters, both parameterized by a formatting configuration.

pub mod format;
pub mod text;
pub mod chord;
pub mod token;
pub mod scanner;
pub mod state_machine;
pub mod tokenizer;
pub mod node;
pub mod parser;
pub mod metadata;
pub mod song;
pub mod metadata_iter;
pub mod error;
pub mod converter;
pub mod sync;
pub mod config;
pub mod repository;

use vstd::prelude::*;
use crate::converter::chorddown::{cd_convert_spec, no_triple_newline, ChorddownConverter};
use crate::converter::html::{html_node_str, HtmlConverter};
use crate::error::ConvertError;
use crate::format::{Format, Formatting};
use crate::metadata::{MetadataTrait, MetadataView};
use crate::node::{transpose_tree_spec, NodeView};
use crate::parser::{parse, parse_spec};
use crate::tokenizer::{tokenize, tokenize_spec};

verus! {

/// The document tree a chorddown text parses to.
pub open spec fn document_spec(text: Seq<char>) -> NodeView {
    parse_spec(tokenize_spec(text))
}

/// What converting a chorddown text yields under a formatting
/// configuration and the given metadata.
pub open spec fn convert_spec(text: Seq<char>, v: MetadataView, f: Formatting) -> Option<
    Seq<char>,
> {
    match f.format {
        Format::Chorddown => cd_convert_spec(document_spec(text), v, f.b_notation),
        Format::Html => html_node_str(document_spec(text)),
    }
}

/// What converting after transposing every chord by `d` semitones
/// yields.
pub open spec fn transpose_convert_spec(
    text: Seq<char>,
    d: int,
    v: MetadataView,
    f: Formatting,
) -> Option<Seq<char>> {
    match f.format {
        Format::Chorddown => cd_convert_spec(
            transpose_tree_spec(document_spec(text), d),
            v,
            f.b_notation,
        ),
        Format::Html => html_node_str(transpose_tree_spec(document_spec(text), d)),
    }
}

/// Success is owed on every input: the parser always yields a document
/// node, and both converters accept every document node, transposed or
/// not.
pub proof fn lemma_convert_total(text: Seq<char>, d: int, v: MetadataView, f: Formatting)
    ensures
        convert_spec(text, v, f) is Some,
        transpose_convert_spec(text, d, v, f) is Some,
{
}

/// Parse a chorddown text and render it in the requested format with the
/// given metadata. Total: every text converts.
pub fn convert_to_format<M: MetadataTrait>(text: &str, meta: &M, formatting: Formatting) -> (r:
    Result<String, ConvertError>)
    ensures
        r is Ok,
        match r {
            Ok(s) => Some(s@) == convert_spec(text@, meta.metadata_view(), formatting) && (
            formatting.format is Chorddown ==> no_triple_newline(s@)),
            Err(_) => false,
        },
{
    let tokens = tokenize(text);
    let document = parse(&tokens);
    proof {
        lemma_convert_total(text@, 0, meta.metadata_view(), formatting);
    }
    match formatting.format {
        Format::Chorddown => {
            let converter = ChorddownConverter {};
            converter.convert(&document, meta, formatting)
        },
        Format::Html => {
            let converter = HtmlConverter {};
            converter.convert(&document, meta, formatting)
        },
    }
}

/// Parse a chorddown text, transpose every chord by the given number of
/// semitones, and render the result. Total: every text converts.
pub fn transpose_and_convert_to_format<M: MetadataTrait>(
    text: &str,
    semitones: isize,
    meta: &M,
    formatting: Formatting,
) -> (r: Result<String, ConvertError>)
    ensures
        r is Ok,
        match r {
            Ok(s) => Some(s@) == transpose_convert_spec(
                text@,
                semitones as int,
                meta.metadata_view(),
                formatting,
            ) && (formatting.format is Chorddown ==> no_triple_newline(s@)),
            Err(_) => false,
        },
{
    let tokens = tokenize(text);
    let document = parse(&tokens);
    let transposed = document.transpose(semitones);
    proof {
        lemma_convert_total(text@, semitones as int, meta.metadata_view(), formatting);
    }
    match formatting.format {
        Format::Chorddown => {
            let converter = ChorddownConverter {};
            converter.convert(&transposed, meta, formatting)
        },
        Format::Html => {
            let converter = HtmlConverter {};
            converter.convert(&transposed, meta, formatting)
        },
    }
}

/// The display pipeline's choice: a song viewed without transposition
/// skips the transposition pass entirely, so the chords' original
/// spelling is untouched; any other amount transposes first.
pub fn convert_song_to_html_string<M: MetadataTrait>(
    src: &str,
    transpose_semitone: isize,
    meta: &M,
    formatting: Formatting,
) -> (r: String)
    ensures
        transpose_semitone == 0 ==> Some(r@) == convert_spec(
            src@,
            meta.metadata_view(),
            formatting,
        ),
        transpose_semitone != 0 ==> Some(r@) == transpose_convert_spec(
            src@,
            transpose_semitone as int,
            meta.metadata_view(),
            formatting,
        ),
{
    let result = if transpose_semitone != 0 {
        transpose_and_convert_to_format(src, transpose_semitone, meta, formatting)
    } else {
        convert_to_format(src, meta, formatting)
    };
    match result {
        Ok(s) => s,
        Err(_) => String::new(),
    }
}

} // verus!
