use vstd::prelude::*;
use crate::chord::{chords_str_spec, Chords};
use crate::chord::ChordsView;
use crate::error::ConvertError;
use crate::format::{BNotation, Formatting};
use crate::metadata::MetadataTrait;
use crate::node::{lemma_nodes_view_index, node_view, nodes_view, Node, NodeView, SectionType};
use crate::text::dec_str;
use crate::text::dec_string;
use crate::token::{Token, TokenView};

verus! {

/// A serialized markup element. `blank` marks the placeholder tag whose
/// row is rendered as a non-breaking blank. Content is carried verbatim:
/// the markup layer adds structure, never rewrites text.
#[derive(Clone, Debug, PartialEq)]
pub struct Tag {
    pub html: String,
    pub blank: bool,
}

impl Tag {
    /// The placeholder tag.
    pub fn blank() -> (r: Tag)
        ensures
            r.blank,
            r.html@ == Seq::<char>::empty(),
    {
        Tag { html: String::new(), blank: true }
    }

    /// A tag holding already serialized markup.
    pub fn raw(html: String) -> (r: Tag)
        ensures
            !r.blank,
            r.html@ == html@,
    {
        Tag { html, blank: false }
    }

    /// A self-closing element with no content.
    pub fn with_name(name: &str) -> (r: Tag)
        ensures
            !r.blank,
            r.html@ == "<"@ + name@ + "/>"@,
    {
        let mut h = "<".to_owned();
        h.append(name);
        h.append("/>");
        Tag { html: h, blank: false }
    }

    /// Whether this is the placeholder tag.
    pub fn is_blank(&self) -> (r: bool)
        ensures
            r == self.blank,
    {
        self.blank
    }

    /// The serialized markup.
    pub fn to_html_string(&self) -> (r: String)
        ensures
            r@ == self.html@,
    {
        self.html.clone()
    }
}

/// A serialized element: name, optional id, class and one attribute,
/// around verbatim content.
pub open spec fn element_str(
    name: Seq<char>,
    id: Option<Seq<char>>,
    class: Option<Seq<char>>,
    attr: Option<(Seq<char>, Seq<char>)>,
    content: Seq<char>,
) -> Seq<char> {
    "<"@ + name + (match id {
        Some(i) => " id='"@ + i + "'"@,
        None => Seq::<char>::empty(),
    }) + (match class {
        Some(c) => " class='"@ + c + "'"@,
        None => Seq::<char>::empty(),
    }) + (match attr {
        Some((an, av)) => " "@ + an + "='"@ + av + "'"@,
        None => Seq::<char>::empty(),
    }) + ">"@ + content + "</"@ + name + ">"@
}

/// The chord span: the rendered chord as content, repeated in a
/// machine-readable attribute. The markup layer always uses English
/// note names.
pub open spec fn chord_span_str(c: ChordsView) -> Seq<char> {
    element_str(
        "span"@,
        None,
        Some("chordr-chord"@),
        Some(("data-chord"@, chords_str_spec(c, BNotation::B))),
        chords_str_spec(c, BNotation::B),
    )
}

/// A two-row column: the chord row above the text row. An absent row is
/// filled with a non-breaking blank so column widths stay aligned.
pub open spec fn column_str(
    chord_blank: bool,
    chord: Seq<char>,
    lyric_blank: bool,
    lyric: Seq<char>,
) -> Seq<char> {
    element_str(
        "div"@,
        None,
        Some("col"@),
        None,
        "<div class='chord-row'>"@ + (if chord_blank {
            "&nbsp;"@
        } else {
            chord
        }) + "</div><div class='text-row'>"@ + (if lyric_blank {
            "&nbsp;"@
        } else {
            lyric
        }) + "</div>"@,
    )
}

/// The markup of a token, or nothing for a token kind that cannot stand
/// in a text position.
pub open spec fn html_token_str(t: TokenView) -> Option<Seq<char>> {
    match t {
        TokenView::Chord(c) => Some(
            element_str("span"@, None, Some("chordr-chord"@), Some(("data-chord"@, c)), c),
        ),
        TokenView::Literal(c) => Some(element_str("span"@, None, None, None, c)),
        TokenView::Newline => Some("<br/>\n"@),
        TokenView::Quote(c) => Some(element_str("blockquote"@, None, None, None, c)),
        TokenView::Headline { level, text, .. } => Some(
            element_str("h"@ + dec_str(level as nat), None, None, None, text),
        ),
        TokenView::Meta(_) => None,
    }
}

/// The class a section's type contributes, if any.
pub open spec fn section_class(st: SectionType) -> Option<Seq<char>> {
    match st {
        SectionType::Chorus => Some("chorus"@),
        SectionType::Bridge => Some("bridge"@),
        SectionType::Unknown => None,
    }
}

/// The markup of a node, or nothing where an illegal token stands.
pub open spec fn html_node_str(n: NodeView) -> Option<Seq<char>>
    decreases n,
{
    match n {
        NodeView::ChordTextPair { chords, text } => match html_token_str(text) {
            Some(ts) => Some(column_str(false, chord_span_str(chords), false, ts)),
            None => None,
        },
        NodeView::ChordStandalone(c) => Some(
            column_str(false, chord_span_str(c), true, Seq::<char>::empty()),
        ),
        NodeView::Text(t) => match html_token_str(t) {
            Some(ts) => Some(column_str(true, Seq::<char>::empty(), false, ts)),
            None => None,
        },
        NodeView::Document(ch) => Some(
            element_str("div"@, Some("chordr-song"@), None, None, html_children_str(ch)),
        ),
        NodeView::Headline(t) => html_token_str(t),
        NodeView::Quote(t) => html_token_str(t),
        NodeView::Meta(m) => Some(
            element_str("span"@, None, Some("meta-keyword"@), None, m.keyword + ":"@) + " "@
                + element_str("span"@, None, Some("meta-value"@), None, m.content),
        ),
        NodeView::Newline => Some("<hr/>\n"@),
        NodeView::Section { head, children, section_type } => match head {
            Some(h) => match html_node_str(*h) {
                Some(hs) => Some(
                    element_str(
                        "section"@,
                        None,
                        section_class(section_type),
                        None,
                        hs + html_children_str(children),
                    ),
                ),
                None => None,
            },
            None => Some(
                element_str(
                    "section"@,
                    None,
                    section_class(section_type),
                    None,
                    html_children_str(children),
                ),
            ),
        },
    }
}

/// The concatenated markup of a node sequence; children whose rendering
/// fails contribute nothing.
pub open spec fn html_children_str(ch: Seq<NodeView>) -> Seq<char>
    decreases ch,
{
    if ch.len() == 0 {
        Seq::<char>::empty()
    } else {
        (match html_node_str(ch[0]) {
            Some(s) => s,
            None => Seq::<char>::empty(),
        }) + html_children_str(ch.subrange(1, ch.len() as int))
    }
}

/// A serialized element from its parts.
fn element(
    name: &str,
    id: Option<&str>,
    class: Option<&str>,
    attr: Option<(&str, &str)>,
    content: &str,
) -> (r: Tag)
    ensures
        !r.blank,
        r.html@ == element_str(
            name@,
            match id {
                Some(i) => Some(i@),
                None => None,
            },
            match class {
                Some(c) => Some(c@),
                None => None,
            },
            match attr {
                Some((an, av)) => Some((an@, av@)),
                None => None,
            },
            content@,
        ),
{
    let mut h = "<".to_owned();
    h.append(name);
    match id {
        Some(i) => {
            h.append(" id='");
            h.append(i);
            h.append("'");
        },
        None => (),
    }
    match class {
        Some(c) => {
            h.append(" class='");
            h.append(c);
            h.append("'");
        },
        None => (),
    }
    match attr {
        Some((an, av)) => {
            h.append(" ");
            h.append(an);
            h.append("='");
            h.append(av);
            h.append("'");
        },
        None => (),
    }
    h.append(">");
    h.append(content);
    h.append("</");
    h.append(name);
    h.append(">");
    proof {
        assert(h@ =~= element_str(
            name@,
            match id {
                Some(i) => Some(i@),
                None => None,
            },
            match class {
                Some(c) => Some(c@),
                None => None,
            },
            match attr {
                Some((an, av)) => Some((an@, av@)),
                None => None,
            },
            content@,
        ));
    }
    Tag { html: h, blank: false }
}

/// The name a section type contributes as a class, if any.
pub fn class_name_for_type(section_type: &SectionType) -> (r: Option<&'static str>)
    ensures
        match (r, section_class(*section_type)) {
            (Some(s), Some(v)) => s@ == v,
            (None, None) => true,
            _ => false,
        },
{
    match section_type {
        SectionType::Chorus => Some("chorus"),
        SectionType::Unknown => None,
        SectionType::Bridge => Some("bridge"),
    }
}

/// Builds the markup tree for on-screen display.
pub struct TagProvider {}

impl TagProvider {
    /// A fresh provider.
    pub fn new() -> (r: Self)
        ensures
            true,
    {
        TagProvider {}
    }

    /// The markup of one node. Fails exactly where the tree's spine
    /// holds a token kind that can never legally stand there.
    pub fn build_tag_for_node(&self, node: &Node) -> (r: Result<Tag, ConvertError>)
        ensures
            match (r, html_node_str(node@)) {
                (Ok(t), Some(v)) => t.html@ == v && !t.blank,
                (Err(e), None) => e == ConvertError::UnexpectedToken,
                _ => false,
            },
        decreases *node,
    {
        match node {
            Node::ChordTextPair { chords, text } => {
                match self.build_tag_for_token(text) {
                    Ok(t) => {
                        let col = self.build_column(self.build_tag_for_chords(chords), t);
                        proof {
                            assert(col.html@ == html_node_str(node@)->0);
                        }
                        Ok(col)
                    },
                    Err(e) => Err(e),
                }
            },
            Node::ChordStandalone(chord) => {
                let col = self.build_column(self.build_tag_for_chords(chord), Tag::blank());
                proof {
                    assert(col.html@ == html_node_str(node@)->0);
                }
                Ok(col)
            },
            Node::Text(text) => match self.build_tag_for_token(text) {
                Ok(t) => {
                    let col = self.build_column(Tag::blank(), t);
                    proof {
                        assert(col.html@ == html_node_str(node@)->0);
                    }
                    Ok(col)
                },
                Err(e) => Err(e),
            },
            Node::Document(children) => {
                let inner = self.build_tag_for_children(children);
                let d = element(
                    "div",
                    Some("chordr-song"),
                    None,
                    None,
                    inner.to_html_string().as_str(),
                );
                proof {
                    assert(d.html@ == html_node_str(node@)->0);
                }
                Ok(d)
            },
            Node::Headline(token) => self.build_tag_for_token(token),
            Node::Quote(token) => self.build_tag_for_token(token),
            Node::Meta(m) => {
                let mut kc = m.keyword.clone();
                kc.append(":");
                let kw_span = element("span", None, Some("meta-keyword"), None, kc.as_str());
                let val_span = element(
                    "span",
                    None,
                    Some("meta-value"),
                    None,
                    m.content.as_str(),
                );
                let mut h = kw_span.to_html_string();
                h.append(" ");
                h.append(val_span.to_html_string().as_str());
                proof {
                    assert(h@ =~= html_node_str(node@)->0);
                }
                Ok(Tag::raw(h))
            },
            Node::Newline => {
                let hr = Tag::with_name("hr");
                let mut h = hr.to_html_string();
                h.append("\n");
                proof {
                    reveal_strlit("<");
                    reveal_strlit("hr");
                    reveal_strlit("/>");
                    reveal_strlit("\n");
                    reveal_strlit("<hr/>\n");
                    assert(h@ =~= "<hr/>\n"@);
                }
                Ok(Tag::raw(h))
            },
            Node::Section { head, children, section_type } => {
                let cls = class_name_for_type(section_type);
                let mut inner = match head {
                    Some(h) => {
                        match self.build_tag_for_node(&**h) {
                            Ok(t) => t.to_html_string(),
                            Err(e) => {
                                return Err(e);
                            },
                        }
                    },
                    None => String::new(),
                };
                let ch = self.build_tag_for_children(children);
                inner.append(ch.to_html_string().as_str());
                proof {
                    match head {
                        Some(b) => {
                            assert(inner@ =~= html_node_str(node_view(**b))->0
                                + html_children_str(nodes_view(children@)));
                        },
                        None => {
                            assert(inner@ =~= html_children_str(nodes_view(children@)));
                        },
                    }
                }
                let sec = element("section", None, cls, None, inner.as_str());
                proof {
                    assert(sec.html@ == html_node_str(node@)->0);
                }
                Ok(sec)
            },
        }
    }

    /// The markup of one token in a text position.
    pub fn build_tag_for_token(&self, token: &Token) -> (r: Result<Tag, ConvertError>)
        ensures
            match (r, html_token_str(token@)) {
                (Ok(t), Some(v)) => t.html@ == v && !t.blank,
                (Err(e), None) => e == ConvertError::UnexpectedToken,
                _ => false,
            },
    {
        match token {
            Token::Chord(c) => Ok(
                element(
                    "span",
                    None,
                    Some("chordr-chord"),
                    Some(("data-chord", c.as_str())),
                    c.as_str(),
                ),
            ),
            Token::Literal(c) => Ok(element("span", None, None, None, c.as_str())),
            Token::Newline => {
                let br = Tag::with_name("br");
                let mut h = br.to_html_string();
                h.append("\n");
                proof {
                    reveal_strlit("<");
                    reveal_strlit("br");
                    reveal_strlit("/>");
                    reveal_strlit("\n");
                    reveal_strlit("<br/>\n");
                    assert(h@ =~= "<br/>\n"@);
                }
                Ok(Tag::raw(h))
            },
            Token::Quote(c) => Ok(element("blockquote", None, None, None, c.as_str())),
            Token::Headline { level, text, .. } => {
                let mut nm = "h".to_owned();
                let digits = dec_string(*level);
                nm.append(digits.as_str());
                proof {
                    assert(nm@ =~= "h"@ + dec_str(*level as nat));
                }
                Ok(element(nm.as_str(), None, None, None, text.as_str()))
            },
            Token::Meta(_) => Err(ConvertError::UnexpectedToken),
        }
    }

    /// The chord span of a column, always with English note names and
    /// the machine-readable chord attribute.
    pub fn build_tag_for_chords(&self, chords: &Chords) -> (r: Tag)
        ensures
            !r.blank,
            r.html@ == chord_span_str(chords@),
    {
        let rendered = chords.to_string(BNotation::B);
        element(
            "span",
            None,
            Some("chordr-chord"),
            Some(("data-chord", rendered.as_str())),
            rendered.as_str(),
        )
    }

    /// The concatenated markup of a node's children; children that
    /// cannot be rendered contribute nothing.
    pub fn build_tag_for_children(&self, children: &Vec<Node>) -> (r: Tag)
        ensures
            r.html@ == html_children_str(nodes_view(children@)),
        decreases children@,
    {
        let ghost nv = nodes_view(children@);
        let mut out = String::new();
        let n = children.len();
        let mut i: usize = 0;
        proof {
            lemma_nodes_view_index(children@);
            assert(nv.skip(0) =~= nv);
            assert(out@ + html_children_str(nv.skip(0)) =~= html_children_str(nv));
        }
        while i < n
            invariant
                n == children@.len(),
                nv == nodes_view(children@),
                nv.len() == n,
                0 <= i <= n,
                forall|j: int| 0 <= j < n ==> #[trigger] nv[j] == node_view(children@[j]),
                out@ + html_children_str(nv.skip(i as int)) == html_children_str(nv),
            decreases n - i,
        {
            let ghost rest = nv.skip(i as int);
            proof {
                assert(rest[0] == nv[i as int]);
                assert(rest.subrange(1, rest.len() as int) =~= nv.skip(i + 1));
                assert(decreases_to!(children@ => children@[i as int]));
            }
            match self.build_tag_for_node(&children[i]) {
                Ok(t) => {
                    let piece = t.to_html_string();
                    out.append(piece.as_str());
                },
                Err(_) => (),
            }
            i += 1;
        }
        proof {
            assert(nv.skip(n as int) =~= Seq::<NodeView>::empty());
            assert(out@ =~= html_children_str(nv));
        }
        Tag::raw(out)
    }

    /// One rendering column: the chord row above the text row; a blank
    /// row becomes the non-breaking placeholder.
    pub fn build_column(&self, chord: Tag, lyric: Tag) -> (r: Tag)
        ensures
            !r.blank,
            r.html@ == column_str(chord.blank, chord.html@, lyric.blank, lyric.html@),
    {
        let mut content = "<div class='chord-row'>".to_owned();
        if chord.is_blank() {
            content.append("&nbsp;");
        } else {
            content.append(chord.html.as_str());
        }
        content.append("</div><div class='text-row'>");
        if lyric.is_blank() {
            content.append("&nbsp;");
        } else {
            content.append(lyric.html.as_str());
        }
        content.append("</div>");
        let r = element("div", None, Some("col"), None, content.as_str());
        proof {
            assert(r.html@ =~= column_str(chord.blank, chord.html@, lyric.blank, lyric.html@));
        }
        r
    }
}

/// Renders a parsed document as a markup string for display.
pub struct HtmlConverter {}

impl HtmlConverter {
    /// Convert a document tree to its display markup; the shared
    /// converter contract takes the metadata and formatting, though the
    /// markup tree carries the document alone and always uses English
    /// note names. Fails exactly where the tree's spine holds an
    /// illegal token, and then yields no partial output.
    pub fn convert<M: MetadataTrait>(
        &self,
        node: &Node,
        _meta: &M,
        _formatting: Formatting,
    ) -> (r: Result<String, ConvertError>)
        ensures
            match (r, html_node_str(node@)) {
                (Ok(s), Some(v)) => s@ == v,
                (Err(e), None) => e == ConvertError::UnexpectedToken,
                _ => false,
            },
    {
        let provider = TagProvider::new();
        match provider.build_tag_for_node(node) {
            Ok(t) => Ok(t.to_html_string()),
            Err(e) => Err(e),
        }
    }
}

} // verus!
