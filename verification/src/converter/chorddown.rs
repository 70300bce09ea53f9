use vstd::prelude::*;
use crate::chord::{chords_str_spec, Chords, ChordsView};
use crate::error::ConvertError;
use crate::format::{BNotation, Formatting};
use crate::metadata::{MetadataTrait, MetadataView};
use crate::node::{lemma_nodes_view_index, node_view, nodes_view, Node, NodeView};
use crate::text::char_repeat;
use crate::text::hash_marks;
use crate::token::{Modifier, Token, TokenView};

verus! {

/// The marker a headline modifier re-emits.
pub open spec fn modifier_str_spec(m: Modifier) -> Seq<char> {
    match m {
        Modifier::Plain => Seq::<char>::empty(),
        Modifier::Chorus => seq!['!'],
        Modifier::Bridge => seq!['$'],
    }
}

/// A chord in its brackets.
pub open spec fn chord_bracket_spec(c: ChordsView, bn: BNotation) -> Seq<char> {
    seq!['['] + chords_str_spec(c, bn) + seq![']']
}

/// The chorddown text of a token standing in a text position, or
/// nothing for token kinds that can never stand there. A level-one
/// headline is suppressed: its text already served as the title.
pub open spec fn cd_token_str(t: TokenView) -> Option<Seq<char>> {
    match t {
        TokenView::Literal(c) => Some(c),
        TokenView::Quote(c) => Some(seq!['>', ' '] + c + seq!['\n']),
        TokenView::Headline { level, text, modifier } => if level == 1 {
            Some(Seq::<char>::empty())
        } else {
            Some(
                char_repeat('#', level as nat) + modifier_str_spec(modifier) + seq![' '] + text,
            )
        },
        _ => None,
    }
}

/// The chorddown text of a node, or nothing where an illegal token
/// stands. Inline metadata nodes re-emit nothing: the metadata block
/// has already been written.
pub open spec fn cd_node_str(n: NodeView, bn: BNotation) -> Option<Seq<char>>
    decreases n,
{
    match n {
        NodeView::ChordTextPair { chords, text } => match cd_token_str(text) {
            Some(ts) => Some(chord_bracket_spec(chords, bn) + ts),
            None => None,
        },
        NodeView::ChordStandalone(c) => Some(chord_bracket_spec(c, bn)),
        NodeView::Text(t) => cd_token_str(t),
        NodeView::Document(ch) => Some(cd_children_str(ch, bn)),
        NodeView::Headline(t) => cd_token_str(t),
        NodeView::Quote(t) => cd_token_str(t),
        NodeView::Meta(_) => Some(Seq::<char>::empty()),
        NodeView::Newline => Some(seq!['\n']),
        NodeView::Section { head, children, .. } => match head {
            Some(h) => match cd_node_str(*h, bn) {
                Some(hs) => Some(hs + cd_children_str(children, bn) + seq!['\n']),
                None => None,
            },
            None => Some(cd_children_str(children, bn) + seq!['\n']),
        },
    }
}

/// The concatenated text of a node sequence; children whose rendering
/// fails contribute nothing.
pub open spec fn cd_children_str(ch: Seq<NodeView>, bn: BNotation) -> Seq<char>
    decreases ch,
{
    if ch.len() == 0 {
        Seq::<char>::empty()
    } else {
        (match cd_node_str(ch[0], bn) {
            Some(s) => s,
            None => Seq::<char>::empty(),
        }) + cd_children_str(ch.subrange(1, ch.len() as int), bn)
    }
}

/// The title line: the title marked as a level-one headline, if a title
/// is present.
pub open spec fn title_str(v: MetadataView) -> Seq<char> {
    match v.title {
        Some(t) => seq!['#', ' '] + t + seq!['\n'],
        None => Seq::<char>::empty(),
    }
}

/// One `Keyword: value` line, if the attribute is present.
pub open spec fn meta_entry(kw: Seq<char>, o: Option<Seq<char>>) -> Seq<Seq<char>> {
    match o {
        Some(c) => seq![kw + seq![':', ' '] + c],
        None => Seq::<Seq<char>>::empty(),
    }
}

/// The metadata block's lines, in the fixed field order.
pub open spec fn meta_lines(v: MetadataView) -> Seq<Seq<char>> {
    meta_entry("Subtitle"@, v.subtitle) + meta_entry("Artist"@, v.artist) + meta_entry(
        "Composer"@,
        v.composer,
    ) + meta_entry("Lyricist"@, v.lyricist) + meta_entry("Copyright"@, v.copyright) + meta_entry(
        "Album"@,
        v.album,
    ) + meta_entry("Year"@, v.year) + meta_entry("Key"@, v.key) + meta_entry("Time"@, v.time)
        + meta_entry("Tempo"@, v.tempo) + meta_entry("Duration"@, v.duration) + meta_entry(
        "Capo"@,
        v.capo,
    )
}

/// Lines joined by single line breaks, with no trailing break.
pub open spec fn join_lines(ls: Seq<Seq<char>>) -> Seq<char>
    decreases ls.len(),
{
    if ls.len() == 0 {
        Seq::<char>::empty()
    } else if ls.len() == 1 {
        ls[0]
    } else {
        ls[0] + seq!['\n'] + join_lines(ls.subrange(1, ls.len() as int))
    }
}

/// The whole metadata block.
pub open spec fn meta_block_str(v: MetadataView) -> Seq<char> {
    join_lines(meta_lines(v))
}

/// No run of three or more consecutive line breaks anywhere.
pub open spec fn no_triple_newline(s: Seq<char>) -> bool {
    forall|i: int|
        0 <= i && i + 2 < s.len() ==> !(#[trigger] s[i] == '\n' && s[i + 1] == '\n' && s[i + 2]
            == '\n')
}

/// The text with every run of three or more line breaks shortened to
/// exactly two: a third consecutive line break is never kept.
pub open spec fn collapse_spec(s: Seq<char>) -> Seq<char>
    decreases s.len(),
{
    if s.len() == 0 {
        Seq::<char>::empty()
    } else {
        let pre = collapse_spec(s.drop_last());
        if s.last() == '\n' && pre.len() >= 2 && pre[pre.len() - 1] == '\n' && pre[pre.len() - 2]
            == '\n' {
            pre
        } else {
            pre.push(s.last())
        }
    }
}

/// The characters trimmed from the end of the finished output.
pub open spec fn is_ws(c: char) -> bool {
    c == ' ' || c == '\t' || c == '\n' || c == '\r'
}

/// The text with trailing whitespace removed.
pub open spec fn trim_end_spec(s: Seq<char>) -> Seq<char>
    decreases s.len(),
{
    if s.len() > 0 && is_ws(s.last()) {
        trim_end_spec(s.drop_last())
    } else {
        s
    }
}

/// The output post-pass: collapse blank-line runs, trim the end, and
/// close with exactly one line break.
pub open spec fn cleanup_spec(s: Seq<char>) -> Seq<char> {
    trim_end_spec(collapse_spec(s)).push('\n')
}

/// What a whole conversion yields: title line, metadata block and body,
/// normalized by the post-pass; or nothing where the tree holds an
/// illegal token.
pub open spec fn cd_convert_spec(n: NodeView, v: MetadataView, bn: BNotation) -> Option<
    Seq<char>,
> {
    match cd_node_str(n, bn) {
        Some(body) => Some(cleanup_spec(title_str(v) + meta_block_str(v) + body)),
        None => None,
    }
}

/// Collapsing never leaves three consecutive line breaks.
pub proof fn lemma_collapse_no_triple(s: Seq<char>)
    ensures
        no_triple_newline(collapse_spec(s)),
    decreases s.len(),
{
    if s.len() > 0 {
        lemma_collapse_no_triple(s.drop_last());
        let pre = collapse_spec(s.drop_last());
        if !(s.last() == '\n' && pre.len() >= 2 && pre[pre.len() - 1] == '\n' && pre[pre.len()
            - 2] == '\n') {
            let r = pre.push(s.last());
            assert forall|i: int|
                0 <= i && i + 2 < r.len() implies !(#[trigger] r[i] == '\n' && r[i + 1] == '\n'
                && r[i + 2] == '\n') by {
                if i + 2 < pre.len() {
                    assert(r[i] == pre[i] && r[i + 1] == pre[i + 1] && r[i + 2] == pre[i + 2]);
                } else {
                    assert(r[i] == pre[i] && r[i + 1] == pre[i + 1] && r[i + 2] == s.last());
                }
            }
        }
    }
}

/// Text already free of blank-line runs is left unchanged.
pub proof fn lemma_collapse_identity(s: Seq<char>)
    requires
        no_triple_newline(s),
    ensures
        collapse_spec(s) == s,
    decreases s.len(),
{
    if s.len() > 0 {
        assert forall|i: int|
            0 <= i && i + 2 < s.drop_last().len() implies !(#[trigger] s.drop_last()[i] == '\n'
            && s.drop_last()[i + 1] == '\n' && s.drop_last()[i + 2] == '\n') by {
            assert(s.drop_last()[i] == s[i] && s.drop_last()[i + 1] == s[i + 1] && s.drop_last()[
                i + 2
            ] == s[i + 2]);
        }
        lemma_collapse_identity(s.drop_last());
        if s.last() == '\n' && s.len() >= 3 && s[s.len() - 2] == '\n' && s[s.len() - 3] == '\n' {
            assert(!(s[s.len() - 3] == '\n' && s[s.len() - 2] == '\n' && s[s.len() - 1] == '\n'));
        }
        assert(s.drop_last().push(s.last()) =~= s);
    }
}

proof fn lemma_trim_end_shape(s: Seq<char>)
    ensures
        trim_end_spec(s).len() <= s.len(),
        forall|i: int| 0 <= i < trim_end_spec(s).len() ==> trim_end_spec(s)[i] == s[i],
        trim_end_spec(s).len() > 0 ==> !is_ws(trim_end_spec(s).last()),
    decreases s.len(),
{
    if s.len() > 0 && is_ws(s.last()) {
        lemma_trim_end_shape(s.drop_last());
        assert forall|i: int| 0 <= i < trim_end_spec(s).len() implies trim_end_spec(s)[i]
            == s[i] by {
            assert(trim_end_spec(s) == trim_end_spec(s.drop_last()));
            assert(s.drop_last()[i] == s[i]);
        }
    }
}

/// The post-pass leaves no blank-line run, and its output always ends
/// with exactly one line break.
pub proof fn lemma_cleanup_no_triple(s: Seq<char>)
    ensures
        no_triple_newline(cleanup_spec(s)),
        cleanup_spec(s).len() >= 1,
        cleanup_spec(s).last() == '\n',
{
    lemma_collapse_no_triple(s);
    let c = collapse_spec(s);
    let t = trim_end_spec(c);
    lemma_trim_end_shape(c);
    let r = t.push('\n');
    assert forall|i: int|
        0 <= i && i + 2 < r.len() implies !(#[trigger] r[i] == '\n' && r[i + 1] == '\n' && r[i
        + 2] == '\n') by {
        if i + 2 < t.len() {
            assert(r[i] == t[i] && r[i + 1] == t[i + 1] && r[i + 2] == t[i + 2]);
            assert(t[i] == c[i] && t[i + 1] == c[i + 1] && t[i + 2] == c[i + 2]);
        } else {
            assert(i + 2 == t.len());
            assert(r[i + 1] == t.last());
        }
    }
}

/// The post-pass is idempotent: running it on its own output changes
/// nothing. This is what makes re-converting already normalized
/// chorddown output a fixed point.
pub proof fn lemma_cleanup_idempotent(s: Seq<char>)
    ensures
        cleanup_spec(cleanup_spec(s)) == cleanup_spec(s),
{
    lemma_collapse_no_triple(s);
    let c = collapse_spec(s);
    let t = trim_end_spec(c);
    lemma_trim_end_shape(c);
    let r = t.push('\n');
    lemma_cleanup_no_triple(s);
    lemma_collapse_identity(r);
    assert(r.drop_last() =~= t);
    assert(r.len() > 0 && is_ws(r.last()));
    assert(trim_end_spec(t) == t) by {
        if t.len() > 0 {
            assert(!is_ws(t.last()));
        }
    }
    assert(trim_end_spec(r) == t);
    assert(cleanup_spec(r) =~= r);
}

/// Re-emits a parsed document as normalized chorddown text.
pub struct ChorddownConverter {}

impl ChorddownConverter {
    /// Convert a document tree back to chorddown: title line, metadata
    /// block in the fixed field order, then the body, with blank-line
    /// runs collapsed and exactly one trailing line break. Fails
    /// exactly where the tree's spine holds an illegal token, and then
    /// yields no partial output.
    pub fn convert<M: MetadataTrait>(
        &self,
        node: &Node,
        meta: &M,
        formatting: Formatting,
    ) -> (r: Result<String, ConvertError>)
        ensures
            match (r, cd_convert_spec(node@, meta.metadata_view(), formatting.b_notation)) {
                (Ok(s), Some(v)) => s@ == v && no_triple_newline(s@),
                (Err(e), None) => e == ConvertError::UnexpectedToken,
                _ => false,
            },
    {
        let body = match self.build_node(node, formatting) {
            Ok(b) => b,
            Err(e) => {
                return Err(e);
            },
        };
        let mut out = self.build_title(meta);
        let meta_block = self.build_meta(meta);
        out.append(meta_block.as_str());
        out.append(body.as_str());
        proof {
            let v = meta.metadata_view();
            assert(out@ =~= title_str(v) + meta_block_str(v) + body@);
            lemma_cleanup_no_triple(out@);
        }
        Ok(cleanup_output(out.as_str()))
    }

    /// The chorddown text of one node.
    pub fn build_node(&self, node: &Node, formatting: Formatting) -> (r: Result<
        String,
        ConvertError,
    >)
        ensures
            match (r, cd_node_str(node@, formatting.b_notation)) {
                (Ok(s), Some(v)) => s@ == v,
                (Err(e), None) => e == ConvertError::UnexpectedToken,
                _ => false,
            },
        decreases *node,
    {
        match node {
            Node::ChordTextPair { chords, text } => {
                let mut out = self.build_tag_for_chords(chords, formatting);
                match self.build_token(text) {
                    Ok(t) => {
                        out.append(t.as_str());
                        Ok(out)
                    },
                    Err(e) => Err(e),
                }
            },
            Node::ChordStandalone(chord) => {
                proof {
                    reveal_strlit("");
                }
                let col = self.build_column(self.build_tag_for_chords(chord, formatting), "");
                proof {
                    assert(col@ =~= chord_bracket_spec(chord@, formatting.b_notation));
                }
                Ok(col)
            },
            Node::Text(text) => self.build_token(text),
            Node::Document(children) => Ok(self.build_tag_for_children(children, formatting)),
            Node::Headline(token) => self.build_token(token),
            Node::Quote(token) => self.build_token(token),
            Node::Meta(_) => {
                // the metadata block was already written
                Ok(String::new())
            },
            Node::Newline => {
                proof {
                    reveal_strlit("\n");
                }
                let r = "\n".to_owned();
                proof {
                    assert(r@ =~= seq!['\n']);
                }
                Ok(r)
            },
            Node::Section { head, children, section_type: _ } => {
                proof {
                    reveal_strlit("\n");
                }
                let mut out = match head {
                    Some(h) => {
                        match self.build_node(&**h, formatting) {
                            Ok(hs) => hs,
                            Err(e) => {
                                return Err(e);
                            },
                        }
                    },
                    None => String::new(),
                };
                let ch = self.build_tag_for_children(children, formatting);
                out.append(ch.as_str());
                out.append("\n");
                proof {
                    assert(out@ =~= cd_node_str(node@, formatting.b_notation)->0);
                }
                Ok(out)
            },
        }
    }

    /// The chorddown text of a token in a text position.
    pub fn build_token(&self, token: &Token) -> (r: Result<String, ConvertError>)
        ensures
            match (r, cd_token_str(token@)) {
                (Ok(s), Some(v)) => s@ == v,
                (Err(e), None) => e == ConvertError::UnexpectedToken,
                _ => false,
            },
    {
        proof {
            reveal_strlit("> ");
            reveal_strlit("\n");
            reveal_strlit("!");
            reveal_strlit("$");
            reveal_strlit(" ");
        }
        match token {
            Token::Literal(c) => Ok(c.clone()),
            Token::Quote(c) => {
                let mut out = "> ".to_owned();
                out.append(c.as_str());
                out.append("\n");
                proof {
                    assert(out@ =~= cd_token_str(token@)->0);
                }
                Ok(out)
            },
            Token::Headline { level, text, modifier } => {
                if *level == 1 {
                    let r = String::new();
                    proof {
                        assert(r@ =~= cd_token_str(token@)->0);
                    }
                    Ok(r)
                } else {
                    let mut out = hash_marks(*level as usize);
                    match modifier {
                        Modifier::Plain => (),
                        Modifier::Chorus => out.append("!"),
                        Modifier::Bridge => out.append("$"),
                    }
                    out.append(" ");
                    out.append(text.as_str());
                    proof {
                        assert(out@ =~= cd_token_str(token@)->0);
                    }
                    Ok(out)
                }
            },
            Token::Chord(_) => Err(ConvertError::UnexpectedToken),
            Token::Newline => Err(ConvertError::UnexpectedToken),
            Token::Meta(_) => Err(ConvertError::UnexpectedToken),
        }
    }

    /// The title line, if the metadata carries a title.
    pub fn build_title<M: MetadataTrait>(&self, meta: &M) -> (r: String)
        ensures
            r@ == title_str(meta.metadata_view()),
    {
        proof {
            reveal_strlit("# ");
            reveal_strlit("\n");
        }
        match meta.title() {
            Some(t) => {
                let mut out = "# ".to_owned();
                out.append(t.as_str());
                out.append("\n");
                proof {
                    assert(out@ =~= title_str(meta.metadata_view()));
                }
                out
            },
            None => {
                let r = String::new();
                proof {
                    assert(r@ =~= title_str(meta.metadata_view()));
                }
                r
            },
        }
    }

    /// The metadata block: one `Keyword: value` line per present
    /// attribute, in the fixed field order, joined by line breaks.
    pub fn build_meta<M: MetadataTrait>(&self, meta: &M) -> (r: String)
        ensures
            r@ == meta_block_str(meta.metadata_view()),
    {
        let ghost v = meta.metadata_view();
        let mut buffer: Vec<String> = Vec::new();
        push_meta_line(&mut buffer, "Subtitle", meta.subtitle());
        push_meta_line(&mut buffer, "Artist", meta.artist());
        push_meta_line(&mut buffer, "Composer", meta.composer());
        push_meta_line(&mut buffer, "Lyricist", meta.lyricist());
        push_meta_line(&mut buffer, "Copyright", meta.copyright());
        push_meta_line(&mut buffer, "Album", meta.album());
        push_meta_line(&mut buffer, "Year", meta.year());
        push_meta_line(&mut buffer, "Key", meta.key());
        push_meta_line(&mut buffer, "Time", meta.time());
        push_meta_line(&mut buffer, "Tempo", meta.tempo());
        push_meta_line(&mut buffer, "Duration", meta.duration());
        push_meta_line(&mut buffer, "Capo", meta.capo());
        proof {
            assert(lines_view(buffer@) =~= meta_lines(v));
        }
        join_buffer(&buffer)
    }

    /// A chord in its brackets, under the call's note naming.
    pub fn build_tag_for_chords(&self, chords: &Chords, formatting: Formatting) -> (r: String)
        ensures
            r@ == chord_bracket_spec(chords@, formatting.b_notation),
    {
        proof {
            reveal_strlit("[");
            reveal_strlit("]");
        }
        let mut out = "[".to_owned();
        let body = chords.to_string(formatting.b_notation);
        out.append(body.as_str());
        out.append("]");
        proof {
            assert(out@ =~= chord_bracket_spec(chords@, formatting.b_notation));
        }
        out
    }

    /// The concatenated text of a node's children; children that cannot
    /// be rendered contribute nothing.
    pub fn build_tag_for_children(&self, children: &Vec<Node>, formatting: Formatting) -> (r:
        String)
        ensures
            r@ == cd_children_str(nodes_view(children@), formatting.b_notation),
        decreases children@,
    {
        let ghost nv = nodes_view(children@);
        let ghost bn = formatting.b_notation;
        let mut out = String::new();
        let n = children.len();
        let mut i: usize = 0;
        proof {
            lemma_nodes_view_index(children@);
            assert(nv.skip(0) =~= nv);
            assert(out@ + cd_children_str(nv.skip(0), bn) =~= cd_children_str(nv, bn));
        }
        while i < n
            invariant
                n == children@.len(),
                nv == nodes_view(children@),
                nv.len() == n,
                bn == formatting.b_notation,
                0 <= i <= n,
                forall|j: int| 0 <= j < n ==> #[trigger] nv[j] == node_view(children@[j]),
                out@ + cd_children_str(nv.skip(i as int), bn) == cd_children_str(nv, bn),
            decreases n - i,
        {
            let ghost rest = nv.skip(i as int);
            proof {
                assert(rest[0] == nv[i as int]);
                assert(rest.subrange(1, rest.len() as int) =~= nv.skip(i + 1));
                assert(decreases_to!(children@ => children@[i as int]));
            }
            match self.build_node(&children[i], formatting) {
                Ok(s) => {
                    out.append(s.as_str());
                },
                Err(_) => (),
            }
            i += 1;
        }
        proof {
            assert(nv.skip(n as int) =~= Seq::<NodeView>::empty());
            assert(out@ =~= cd_children_str(nv, bn));
        }
        out
    }

    /// One rendering column: the chord text directly before the lyric
    /// text it decorates.
    pub fn build_column(&self, chord: String, lyric: &str) -> (r: String)
        ensures
            r@ == chord@ + lyric@,
    {
        let mut out = chord;
        out.append(lyric);
        out
    }
}

/// The images of a line buffer.
pub open spec fn lines_view(b: Seq<String>) -> Seq<Seq<char>> {
    b.map_values(|s: String| s@)
}

/// Append one `Keyword: value` line, if the attribute is present.
fn push_meta_line(buffer: &mut Vec<String>, keyword: &str, value: Option<String>)
    ensures
        lines_view(final(buffer)@) == lines_view(old(buffer)@) + meta_entry(
            keyword@,
            crate::metadata::opt_str_view(value),
        ),
{
    proof {
        reveal_strlit(": ");
    }
    match value {
        Some(c) => {
            let mut line = keyword.to_owned();
            line.append(": ");
            line.append(c.as_str());
            proof {
                assert(line@ =~= keyword@ + seq![':', ' '] + c@);
                assert(lines_view(old(buffer)@.push(line)) =~= lines_view(old(buffer)@)
                    + meta_entry(keyword@, crate::metadata::opt_str_view(Some(c))));
            }
            buffer.push(line);
        },
        None => {
            proof {
                assert(lines_view(buffer@) =~= lines_view(buffer@) + meta_entry(
                    keyword@,
                    crate::metadata::opt_str_view(None),
                ));
            }
        },
    }
}

proof fn lemma_join_lines_push(ls: Seq<Seq<char>>, x: Seq<char>)
    ensures
        join_lines(ls.push(x)) == if ls.len() == 0 {
            x
        } else {
            join_lines(ls) + seq!['\n'] + x
        },
    decreases ls.len(),
{
    let p = ls.push(x);
    if ls.len() == 0 {
        assert(p.len() == 1);
        assert(join_lines(p) == p[0]);
        assert(p[0] == x);
    } else {
        assert(p.len() >= 2);
        let tail = p.subrange(1, p.len() as int);
        assert(tail =~= ls.subrange(1, ls.len() as int).push(x));
        lemma_join_lines_push(ls.subrange(1, ls.len() as int), x);
        if ls.len() == 1 {
            assert(ls.subrange(1, ls.len() as int).len() == 0);
            assert(join_lines(p) == p[0] + seq!['\n'] + x);
            assert(p[0] == ls[0]);
            assert(join_lines(ls) == ls[0]);
        } else {
            assert(join_lines(p) =~= join_lines(ls) + seq!['\n'] + x);
        }
    }
}

/// Join buffered lines with single line breaks.
fn join_buffer(buffer: &Vec<String>) -> (r: String)
    ensures
        r@ == join_lines(lines_view(buffer@)),
{
    proof {
        reveal_strlit("\n");
    }
    let ghost lv = lines_view(buffer@);
    let mut out = String::new();
    let n = buffer.len();
    let mut i: usize = 0;
    proof {
        assert(lv.take(0) =~= Seq::<Seq<char>>::empty());
        assert(out@ =~= join_lines(lv.take(0)));
    }
    while i < n
        invariant
            n == buffer@.len(),
            lv == lines_view(buffer@),
            lv.len() == n,
            0 <= i <= n,
            out@ == join_lines(lv.take(i as int)),
        decreases n - i,
    {
        proof {
            reveal_strlit("\n");
            assert(lv.take(i + 1) =~= lv.take(i as int).push(lv[i as int]));
            lemma_join_lines_push(lv.take(i as int), lv[i as int]);
            assert(lv[i as int] == buffer@[i as int]@);
        }
        if i > 0 {
            out.append("\n");
        }
        out.append(buffer[i].as_str());
        proof {
            assert(out@ =~= join_lines(lv.take(i + 1)));
        }
        i += 1;
    }
    proof {
        assert(lv.take(n as int) =~= lv);
    }
    out
}

/// Collapse blank-line runs: of three or more consecutive line breaks,
/// only the first two are kept.
pub fn remove_double_blank_lines(input: &str) -> (r: String)
    ensures
        r@ == collapse_spec(input@),
{
    proof {
        reveal_strlit("\n");
    }
    let len: usize = input.unicode_len();
    let mut out = String::new();
    let mut run: usize = 0;
    let mut i: usize = 0;
    proof {
        assert(input@.take(0) =~= Seq::<char>::empty());
    }
    while i < len
        invariant
            len == input@.len(),
            0 <= i <= len,
            out@ == collapse_spec(input@.take(i as int)),
            run <= 2,
            (run >= 1) == (out@.len() >= 1 && out@.last() == '\n'),
            (run >= 2) == (out@.len() >= 2 && out@.last() == '\n' && out@[out@.len() - 2]
                == '\n'),
        decreases len - i,
    {
        let c = input.get_char(i);
        proof {
            reveal_strlit("\n");
            assert(input@.take(i + 1).drop_last() =~= input@.take(i as int));
            assert(input@.take(i + 1).last() == input@[i as int]);
        }
        if c == '\n' {
            if run < 2 {
                let ghost oldout = out@;
                out.append("\n");
                proof {
                    assert(out@ =~= oldout.push('\n'));
                }
                run = run + 1;
            }
        } else {
            let piece = input.substring_char(i, i + 1);
            proof {
                assert(piece@ =~= seq![input@[i as int]]);
                assert(out@ + piece@ =~= out@.push(input@[i as int]));
            }
            out.append(piece);
            run = 0;
        }
        i += 1;
    }
    proof {
        assert(input@.take(len as int) =~= input@);
    }
    out
}

/// The text with trailing whitespace removed.
fn trim_end_str(s: &str) -> (r: &str)
    ensures
        r@ == trim_end_spec(s@),
{
    let len: usize = s.unicode_len();
    let mut j: usize = len;
    loop
        invariant
            len == s@.len(),
            0 <= j <= len,
            forall|k: int| j <= k < len ==> is_ws(s@[k]),
        ensures
            0 <= j <= len,
            forall|k: int| j <= k < len ==> is_ws(s@[k]),
            j > 0 ==> !is_ws(s@[j - 1]),
        decreases j,
    {
        if j == 0 {
            break;
        }
        let c = s.get_char(j - 1);
        if !(c == ' ' || c == '\t' || c == '\n' || c == '\r') {
            break;
        }
        j -= 1;
    }
    proof {
        lemma_trim_end_take(s@, j as int);
    }
    let r = s.substring_char(0, j);
    proof {
        assert(r@ =~= s@.take(j as int));
    }
    r
}

proof fn lemma_trim_end_take(s: Seq<char>, j: int)
    requires
        0 <= j <= s.len(),
        forall|k: int| j <= k < s.len() ==> is_ws(s[k]),
        j > 0 ==> !is_ws(s[j - 1]),
    ensures
        trim_end_spec(s) == s.take(j),
    decreases s.len(),
{
    if j == s.len() {
        assert(s.take(j) =~= s);
    } else {
        assert(is_ws(s.last()));
        lemma_trim_end_take(s.drop_last(), j);
        assert(s.drop_last().take(j) =~= s.take(j));
    }
}

/// The output post-pass: collapse blank-line runs, trim trailing
/// whitespace, and close with exactly one line break.
pub fn cleanup_output(output: &str) -> (r: String)
    ensures
        r@ == cleanup_spec(output@),
{
    proof {
        reveal_strlit("\n");
    }
    let collapsed = remove_double_blank_lines(output);
    let trimmed = trim_end_str(collapsed.as_str());
    let mut out = trimmed.to_owned();
    out.append("\n");
    proof {
        assert(out@ =~= cleanup_spec(output@));
    }
    out
}

} // verus!
