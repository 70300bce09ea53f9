use vstd::prelude::*;
use crate::chord::{parse_chords_spec, transpose_chords_spec, Chords, ChordsView};
use crate::token::{clone_token, meta_from_line_spec, Meta, MetaView, Modifier, Token, TokenView};

verus! {

/// How a section is classified, derived from its headline's modifier.
#[derive(Clone, Copy, Debug, PartialEq, Eq, Structural)]
pub enum SectionType {
    Unknown,
    Chorus,
    Bridge,
}

/// The section type a headline modifier dictates.
pub open spec fn section_type_of_spec(m: Modifier) -> SectionType {
    match m {
        Modifier::Plain => SectionType::Unknown,
        Modifier::Chorus => SectionType::Chorus,
        Modifier::Bridge => SectionType::Bridge,
    }
}

/// One node of the document tree. Each node owns its children; the tree
/// is acyclic by construction.
#[derive(Debug, PartialEq)]
pub enum Node {
    ChordTextPair { chords: Chords, text: Token },
    ChordStandalone(Chords),
    Text(Token),
    Document(Vec<Node>),
    Headline(Token),
    Quote(Token),
    Meta(Meta),
    Newline,
    Section { head: Option<Box<Node>>, children: Vec<Node>, section_type: SectionType },
}

/// Mathematical image of a document tree.
#[verifier::ext_equal]
pub enum NodeView {
    ChordTextPair { chords: ChordsView, text: TokenView },
    ChordStandalone(ChordsView),
    Text(TokenView),
    Document(Seq<NodeView>),
    Headline(TokenView),
    Quote(TokenView),
    Meta(MetaView),
    Newline,
    Section { head: Option<Box<NodeView>>, children: Seq<NodeView>, section_type: SectionType },
}

/// The image of a node.
pub open spec fn node_view(n: Node) -> NodeView
    decreases n,
{
    match n {
        Node::ChordTextPair { chords, text } => NodeView::ChordTextPair {
            chords: chords@,
            text: text@,
        },
        Node::ChordStandalone(c) => NodeView::ChordStandalone(c@),
        Node::Text(t) => NodeView::Text(t@),
        Node::Document(ch) => NodeView::Document(nodes_view(ch@)),
        Node::Headline(t) => NodeView::Headline(t@),
        Node::Quote(t) => NodeView::Quote(t@),
        Node::Meta(m) => NodeView::Meta(m@),
        Node::Newline => NodeView::Newline,
        Node::Section { head, children, section_type } => NodeView::Section {
            head: match head {
                Some(b) => Some(Box::new(node_view(*b))),
                None => None,
            },
            children: nodes_view(children@),
            section_type,
        },
    }
}

/// The images of a node sequence.
pub open spec fn nodes_view(s: Seq<Node>) -> Seq<NodeView>
    decreases s,
{
    if s.len() == 0 {
        Seq::<NodeView>::empty()
    } else {
        seq![node_view(s[0])] + nodes_view(s.subrange(1, s.len() as int))
    }
}

impl View for Node {
    type V = NodeView;

    open spec fn view(&self) -> NodeView {
        node_view(*self)
    }
}

/// A node sequence and its image have the same length, element by
/// element.
pub proof fn lemma_nodes_view_index(s: Seq<Node>)
    ensures
        nodes_view(s).len() == s.len(),
        forall|i: int| 0 <= i < s.len() ==> #[trigger] nodes_view(s)[i] == node_view(s[i]),
    decreases s,
{
    if s.len() > 0 {
        let tail = s.subrange(1, s.len() as int);
        lemma_nodes_view_index(tail);
        assert forall|i: int| 0 <= i < s.len() implies #[trigger] nodes_view(s)[i] == node_view(
            s[i],
        ) by {
            if i > 0 {
                assert(nodes_view(s)[i] == nodes_view(tail)[i - 1]);
                assert(tail[i - 1] == s[i]);
            }
        }
    }
}

/// Appending a node appends its image.
pub proof fn lemma_nodes_view_push(s: Seq<Node>, n: Node)
    ensures
        nodes_view(s.push(n)) == nodes_view(s).push(node_view(n)),
{
    lemma_nodes_view_index(s);
    lemma_nodes_view_index(s.push(n));
    assert forall|i: int| 0 <= i < s.len() + 1 implies nodes_view(s.push(n))[i] == nodes_view(
        s,
    ).push(node_view(n))[i] by {
        if i < s.len() {
            assert(s.push(n)[i] == s[i]);
        } else {
            assert(s.push(n)[i] == n);
        }
    }
    assert(nodes_view(s.push(n)) =~= nodes_view(s).push(node_view(n)));
}

impl Node {
    /// A section with a headline of the given level, text and modifier.
    pub fn section(level: u8, text: &str, modifier: Modifier, children: Vec<Node>) -> (r: Node)
        ensures
            r@ == (NodeView::Section {
                head: Some(
                    Box::new(
                        NodeView::Headline(
                            TokenView::Headline { level, text: text@, modifier },
                        ),
                    ),
                ),
                children: nodes_view(children@),
                section_type: section_type_of_spec(modifier),
            }),
    {
        let section_type = match modifier {
            Modifier::Plain => SectionType::Unknown,
            Modifier::Chorus => SectionType::Chorus,
            Modifier::Bridge => SectionType::Bridge,
        };
        let head_node = Node::Headline(Token::headline(level, text, modifier));
        proof {
            assert(head_node@ == NodeView::Headline(
                TokenView::Headline { level, text: text@, modifier },
            ));
        }
        let r = Node::Section { head: Some(Box::new(head_node)), children, section_type };
        proof {
            assert(r@ =~~= (NodeView::Section {
                head: Some(
                    Box::new(
                        NodeView::Headline(TokenView::Headline { level, text: text@, modifier }),
                    ),
                ),
                children: nodes_view(children@),
                section_type: section_type_of_spec(modifier),
            }));
        }
        r
    }

    /// A plain text node.
    pub fn text(text: &str) -> (r: Node)
        ensures
            r@ == NodeView::Text(TokenView::Literal(text@)),
    {
        Node::Text(Token::Literal(text.to_owned()))
    }

    /// A quote node.
    pub fn quote(text: &str) -> (r: Node)
        ensures
            r@ == NodeView::Quote(TokenView::Quote(text@)),
    {
        Node::Quote(Token::quote(text))
    }

    /// A line break node.
    pub fn newline() -> (r: Node)
        ensures
            r@ == NodeView::Newline,
    {
        Node::Newline
    }

    /// A metadata node read from a `Keyword: value` line; it exists
    /// exactly when the line uses a known keyword.
    pub fn meta(line: &str) -> (r: Option<Node>)
        ensures
            match (r, meta_from_line_spec(line@)) {
                (Some(n), Some(v)) => n@ == NodeView::Meta(v),
                (None, None) => true,
                _ => false,
            },
    {
        match Meta::try_from_str(line) {
            Some(m) => Some(Node::Meta(m)),
            None => None,
        }
    }

    /// A chord paired with the text it decorates; it exists exactly when
    /// the chord text reads as a chord symbol rather than raw content.
    pub fn chord_text_pair(chord: &str, text: &str) -> (r: Option<Node>)
        ensures
            match (r, parse_chords_spec(chord@)) {
                (Some(n), ChordsView::Chord(c)) => n@ == (NodeView::ChordTextPair {
                    chords: ChordsView::Chord(c),
                    text: TokenView::Literal(text@),
                }),
                (None, ChordsView::Raw(_)) => true,
                _ => false,
            },
    {
        match Chords::parse(chord) {
            Chords::Chord(c) => Some(
                Node::ChordTextPair {
                    chords: Chords::Chord(c),
                    text: Token::Literal(text.to_owned()),
                },
            ),
            Chords::Raw(_) => None,
        }
    }

    /// A standalone chord node; like `chord_text_pair`, it exists exactly
    /// when the text reads as a chord symbol.
    pub fn chord_standalone(chord: &str) -> (r: Option<Node>)
        ensures
            match (r, parse_chords_spec(chord@)) {
                (Some(n), ChordsView::Chord(c)) => n@ == NodeView::ChordStandalone(
                    ChordsView::Chord(c),
                ),
                (None, ChordsView::Raw(_)) => true,
                _ => false,
            },
    {
        match Chords::parse(chord) {
            Chords::Chord(c) => Some(Node::ChordStandalone(Chords::Chord(c))),
            Chords::Raw(_) => None,
        }
    }
}

/// The section type a headline modifier dictates.
pub fn section_type_of(m: Modifier) -> (r: SectionType)
    ensures
        r == section_type_of_spec(m),
{
    match m {
        Modifier::Plain => SectionType::Unknown,
        Modifier::Chorus => SectionType::Chorus,
        Modifier::Bridge => SectionType::Bridge,
    }
}

/// The tree with every chord moved by `d` semitones; everything else,
/// text and structure alike, is untouched.
pub open spec fn transpose_tree_spec(n: NodeView, d: int) -> NodeView
    decreases n,
{
    match n {
        NodeView::ChordTextPair { chords, text } => NodeView::ChordTextPair {
            chords: transpose_chords_spec(chords, d),
            text,
        },
        NodeView::ChordStandalone(c) => NodeView::ChordStandalone(
            transpose_chords_spec(c, d),
        ),
        NodeView::Text(t) => NodeView::Text(t),
        NodeView::Document(ch) => NodeView::Document(transpose_nodes_spec(ch, d)),
        NodeView::Headline(t) => NodeView::Headline(t),
        NodeView::Quote(t) => NodeView::Quote(t),
        NodeView::Meta(m) => NodeView::Meta(m),
        NodeView::Newline => NodeView::Newline,
        NodeView::Section { head, children, section_type } => NodeView::Section {
            head: match head {
                Some(h) => Some(Box::new(transpose_tree_spec(*h, d))),
                None => None,
            },
            children: transpose_nodes_spec(children, d),
            section_type,
        },
    }
}

/// The transposed images of a node sequence.
pub open spec fn transpose_nodes_spec(s: Seq<NodeView>, d: int) -> Seq<NodeView>
    decreases s,
{
    if s.len() == 0 {
        Seq::<NodeView>::empty()
    } else {
        seq![transpose_tree_spec(s[0], d)] + transpose_nodes_spec(
            s.subrange(1, s.len() as int),
            d,
        )
    }
}

/// A transposed node sequence, element by element.
pub proof fn lemma_transpose_nodes_index(s: Seq<NodeView>, d: int)
    ensures
        transpose_nodes_spec(s, d).len() == s.len(),
        forall|i: int|
            0 <= i < s.len() ==> #[trigger] transpose_nodes_spec(s, d)[i]
                == transpose_tree_spec(s[i], d),
    decreases s,
{
    if s.len() > 0 {
        let tail = s.subrange(1, s.len() as int);
        lemma_transpose_nodes_index(tail, d);
        assert forall|i: int|
            0 <= i < s.len() implies #[trigger] transpose_nodes_spec(s, d)[i]
            == transpose_tree_spec(s[i], d) by {
            if i > 0 {
                assert(transpose_nodes_spec(s, d)[i] == transpose_nodes_spec(tail, d)[i - 1]);
                assert(tail[i - 1] == s[i]);
            }
        }
    }
}

impl Node {
    /// Transpose every chord in this tree by `d` semitones.
    pub fn transpose(&self, d: isize) -> (r: Node)
        ensures
            r@ == transpose_tree_spec(self@, d as int),
        decreases *self,
    {
        match self {
            Node::ChordTextPair { chords, text } => Node::ChordTextPair {
                chords: chords.transpose(d),
                text: clone_token(text),
            },
            Node::ChordStandalone(c) => Node::ChordStandalone(c.transpose(d)),
            Node::Text(t) => Node::Text(clone_token(t)),
            Node::Document(ch) => Node::Document(transpose_children(ch, d)),
            Node::Headline(t) => Node::Headline(clone_token(t)),
            Node::Quote(t) => Node::Quote(clone_token(t)),
            Node::Meta(m) => Node::Meta(
                Meta { keyword: m.keyword.clone(), content: m.content.clone() },
            ),
            Node::Newline => Node::Newline,
            Node::Section { head, children, section_type } => {
                let new_head = match head {
                    Some(b) => {
                        let h = (**b).transpose(d);
                        proof {
                            assert(h@ == transpose_tree_spec(node_view(**b), d as int));
                        }
                        Some(Box::new(h))
                    },
                    None => None,
                };
                let r = Node::Section {
                    head: new_head,
                    children: transpose_children(children, d),
                    section_type: *section_type,
                };
                proof {
                    assert(r@ =~~= transpose_tree_spec(self@, d as int));
                }
                r
            },
        }
    }
}

/// Transpose each node of a child list.
fn transpose_children(children: &Vec<Node>, d: isize) -> (r: Vec<Node>)
    ensures
        nodes_view(r@) == transpose_nodes_spec(nodes_view(children@), d as int),
    decreases children@,
{
    let ghost nv = nodes_view(children@);
    let mut out: Vec<Node> = Vec::new();
    let n = children.len();
    let mut i: usize = 0;
    proof {
        lemma_nodes_view_index(children@);
        lemma_transpose_nodes_index(nv, d as int);
        assert(nodes_view(out@) =~= transpose_nodes_spec(nv, d as int).take(0));
    }
    while i < n
        invariant
            n == children@.len(),
            nv == nodes_view(children@),
            nv.len() == n,
            0 <= i <= n,
            forall|j: int| 0 <= j < n ==> #[trigger] nv[j] == node_view(children@[j]),
            transpose_nodes_spec(nv, d as int).len() == n,
            forall|j: int|
                0 <= j < n ==> #[trigger] transpose_nodes_spec(nv, d as int)[j]
                    == transpose_tree_spec(nv[j], d as int),
            nodes_view(out@) == transpose_nodes_spec(nv, d as int).take(i as int),
        decreases n - i,
    {
        proof {
            assert(decreases_to!(children@ => children@[i as int]));
        }
        let t = children[i].transpose(d);
        proof {
            lemma_nodes_view_push(out@, t);
            assert(nodes_view(out@).push(t@) =~= transpose_nodes_spec(nv, d as int).take(
                i + 1,
            ));
        }
        out.push(t);
        i += 1;
    }
    proof {
        assert(transpose_nodes_spec(nv, d as int).take(n as int) =~= transpose_nodes_spec(
            nv,
            d as int,
        ));
    }
    out
}

} // verus!
