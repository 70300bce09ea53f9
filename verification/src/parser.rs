use vstd::prelude::*;
use crate::chord::{parse_chords_spec, Chords, ChordsView};
use crate::node::{
    lemma_nodes_view_push, node_view, nodes_view, section_type_of_spec, Node, NodeView,
    SectionType,
};
use crate::token::{clone_token, Modifier, Token, TokenView};
use crate::tokenizer::tokens_view;

verus! {

/// The parser's running state: finished top-level nodes, the open
/// section's headline and children, and a chord waiting for its text.
#[verifier::ext_equal]
pub struct ParseState {
    pub done: Seq<NodeView>,
    pub head: Option<TokenView>,
    pub children: Seq<NodeView>,
    pub pending: Option<ChordsView>,
}

/// The parser's state before any token.
pub open spec fn initial_parse_state() -> ParseState {
    ParseState {
        done: Seq::<NodeView>::empty(),
        head: None,
        children: Seq::<NodeView>::empty(),
        pending: None,
    }
}

/// The level of a headline token; other tokens have none.
pub open spec fn headline_level(t: TokenView) -> u8 {
    match t {
        TokenView::Headline { level, .. } => level,
        _ => 0,
    }
}

/// The modifier of a headline token; other tokens have none.
pub open spec fn headline_modifier(t: TokenView) -> Modifier {
    match t {
        TokenView::Headline { modifier, .. } => modifier,
        _ => Modifier::Plain,
    }
}

/// A chord still waiting when its line offers no more text becomes a
/// standalone chord node.
pub open spec fn flush_pending_spec(st: ParseState) -> ParseState {
    match st.pending {
        Some(c) => ParseState {
            children: st.children.push(NodeView::ChordStandalone(c)),
            pending: None,
            ..st
        },
        None => st,
    }
}

/// Close the open section: a headed section always joins the finished
/// nodes; a head-less one only if it has children.
pub open spec fn close_section_spec(st: ParseState) -> ParseState {
    let st1 = flush_pending_spec(st);
    let closed = match st1.head {
        Some(h) => st1.done.push(
            NodeView::Section {
                head: Some(Box::new(NodeView::Headline(h))),
                children: st1.children,
                section_type: section_type_of_spec(headline_modifier(h)),
            },
        ),
        None => if st1.children.len() == 0 {
            st1.done
        } else {
            st1.done.push(
                NodeView::Section {
                    head: None,
                    children: st1.children,
                    section_type: SectionType::Unknown,
                },
            )
        },
    };
    ParseState {
        done: closed,
        head: None,
        children: Seq::<NodeView>::empty(),
        pending: None,
    }
}

/// What one token does to the parser: a headline whose level does not
/// exceed the open section's opens a new section; a deeper headline
/// stays a child; a chord waits for text; text pairs with a waiting
/// chord; everything else becomes a child node in place.
pub open spec fn parse_step_spec(st: ParseState, t: TokenView) -> ParseState {
    match t {
        TokenView::Headline { level, .. } => {
            let open = match st.head {
                None => true,
                Some(h) => level <= headline_level(h),
            };
            if open {
                let st1 = close_section_spec(st);
                ParseState { head: Some(t), ..st1 }
            } else {
                let st1 = flush_pending_spec(st);
                ParseState { children: st1.children.push(NodeView::Headline(t)), ..st1 }
            }
        },
        TokenView::Chord(s) => {
            let st1 = flush_pending_spec(st);
            ParseState { pending: Some(parse_chords_spec(s)), ..st1 }
        },
        TokenView::Literal(_) => match st.pending {
            Some(c) => ParseState {
                children: st.children.push(NodeView::ChordTextPair { chords: c, text: t }),
                pending: None,
                ..st
            },
            None => ParseState { children: st.children.push(NodeView::Text(t)), ..st },
        },
        TokenView::Quote(_) => {
            let st1 = flush_pending_spec(st);
            ParseState { children: st1.children.push(NodeView::Quote(t)), ..st1 }
        },
        TokenView::Meta(m) => {
            let st1 = flush_pending_spec(st);
            ParseState { children: st1.children.push(NodeView::Meta(m)), ..st1 }
        },
        TokenView::Newline => {
            let st1 = flush_pending_spec(st);
            ParseState { children: st1.children.push(NodeView::Newline), ..st1 }
        },
    }
}

/// The parser's state after a token sequence.
pub open spec fn parse_fold(ts: Seq<TokenView>) -> ParseState
    decreases ts.len(),
{
    if ts.len() == 0 {
        initial_parse_state()
    } else {
        parse_step_spec(parse_fold(ts.drop_last()), ts.last())
    }
}

/// The document a token sequence parses to: the finished sections once
/// the last open section is closed.
pub open spec fn parse_spec(ts: Seq<TokenView>) -> NodeView {
    NodeView::Document(close_section_spec(parse_fold(ts)).done)
}

/// The level of a headline token.
fn headline_level_of(t: &Token) -> (r: u8)
    ensures
        r == headline_level(t@),
{
    match t {
        Token::Headline { level, .. } => *level,
        _ => 0,
    }
}

/// The section type of a headline token's modifier.
fn section_type_from_token(t: &Token) -> (r: SectionType)
    ensures
        r == section_type_of_spec(headline_modifier(t@)),
{
    match t {
        Token::Headline { modifier: Modifier::Chorus, .. } => SectionType::Chorus,
        Token::Headline { modifier: Modifier::Bridge, .. } => SectionType::Bridge,
        _ => SectionType::Unknown,
    }
}

/// The image of an optional token.
pub open spec fn opt_token_view(o: Option<Token>) -> Option<TokenView> {
    match o {
        Some(t) => Some(t@),
        None => None,
    }
}

/// The image of optional bracket content.
pub open spec fn opt_chords_view(o: Option<Chords>) -> Option<ChordsView> {
    match o {
        Some(c) => Some(c@),
        None => None,
    }
}

/// Turn held exec state into its mathematical image.
pub open spec fn parse_state_of(
    done: Seq<Node>,
    head: Option<Token>,
    children: Seq<Node>,
    pending: Option<Chords>,
) -> ParseState {
    ParseState {
        done: nodes_view(done),
        head: opt_token_view(head),
        children: nodes_view(children),
        pending: opt_chords_view(pending),
    }
}

/// Close the open section held in exec state.
fn close_current(
    done: &mut Vec<Node>,
    head: &mut Option<Token>,
    children: &mut Vec<Node>,
    pending: &mut Option<Chords>,
)
    ensures
        parse_state_of(final(done)@, *final(head), final(children)@, *final(pending))
            == close_section_spec(
            parse_state_of(old(done)@, *old(head), old(children)@, *old(pending)),
        ),
{
    let ghost pre = parse_state_of(old(done)@, *old(head), old(children)@, *old(pending));
    let p = pending.take();
    match p {
        Some(c) => {
            proof {
                lemma_nodes_view_push(children@, Node::ChordStandalone(c));
            }
            children.push(Node::ChordStandalone(c));
        },
        None => (),
    }
    proof {
        assert(parse_state_of(done@, *head, children@, *pending) =~~= flush_pending_spec(pre));
    }
    let ghost st1 = flush_pending_spec(pre);
    let hd = head.take();
    let mut ch: Vec<Node> = Vec::new();
    core::mem::swap(&mut ch, children);
    match hd {
        Some(h) => {
            let st = section_type_from_token(&h);
            let head_node = Node::Headline(h);
            proof {
                assert(head_node@ == NodeView::Headline(st1.head->0));
            }
            let section = Node::Section {
                head: Some(Box::new(head_node)),
                children: ch,
                section_type: st,
            };
            proof {
                lemma_nodes_view_push(done@, section);
                assert(node_view(section) =~~= (NodeView::Section {
                    head: Some(Box::new(NodeView::Headline(st1.head->0))),
                    children: st1.children,
                    section_type: section_type_of_spec(headline_modifier(st1.head->0)),
                }));
            }
            done.push(section);
        },
        None => {
            if ch.len() > 0 {
                let section = Node::Section {
                    head: None,
                    children: ch,
                    section_type: SectionType::Unknown,
                };
                proof {
                    lemma_nodes_view_push(done@, section);
                    assert(node_view(section) =~~= (NodeView::Section {
                        head: None,
                        children: st1.children,
                        section_type: SectionType::Unknown,
                    }));
                }
                done.push(section);
            }
        },
    }
    proof {
        assert(parse_state_of(done@, *head, children@, *pending) =~~= close_section_spec(pre));
    }
}

/// Build the document tree from a token sequence. Total over any token
/// sequence the tokenizer can produce: parsing never fails.
pub fn parse(tokens: &Vec<Token>) -> (r: Node)
    ensures
        r@ == parse_spec(tokens_view(tokens@)),
{
    let ghost tv = tokens_view(tokens@);
    let mut done: Vec<Node> = Vec::new();
    let mut head: Option<Token> = None;
    let mut children: Vec<Node> = Vec::new();
    let mut pending: Option<Chords> = None;
    let n = tokens.len();
    let mut i: usize = 0;
    proof {
        assert(tv.take(0) =~= Seq::<TokenView>::empty());
        assert(parse_state_of(done@, head, children@, pending) =~~= parse_fold(tv.take(0)));
    }
    while i < n
        invariant
            n == tokens@.len(),
            tv == tokens_view(tokens@),
            0 <= i <= n,
            parse_state_of(done@, head, children@, pending) == parse_fold(tv.take(i as int)),
        decreases n - i,
    {
        let ghost st0 = parse_state_of(done@, head, children@, pending);
        proof {
            assert(tv.take(i + 1).drop_last() =~= tv.take(i as int));
            assert(tv.take(i + 1).last() == tv[i as int]);
            assert(tv[i as int] == tokens@[i as int]@);
        }
        let t = &tokens[i];
        match t {
            Token::Headline { level, .. } => {
                let open = match &head {
                    None => true,
                    Some(h) => *level <= headline_level_of(h),
                };
                if open {
                    close_current(&mut done, &mut head, &mut children, &mut pending);
                    head = Some(clone_token(t));
                } else {
                    let p = pending.take();
                    match p {
                        Some(c) => {
                            proof {
                                lemma_nodes_view_push(children@, Node::ChordStandalone(c));
                            }
                            children.push(Node::ChordStandalone(c));
                        },
                        None => (),
                    }
                    let child = Node::Headline(clone_token(t));
                    proof {
                        lemma_nodes_view_push(children@, child);
                    }
                    children.push(child);
                }
            },
            Token::Chord(s) => {
                let p = pending.take();
                match p {
                    Some(c) => {
                        proof {
                            lemma_nodes_view_push(children@, Node::ChordStandalone(c));
                        }
                        children.push(Node::ChordStandalone(c));
                    },
                    None => (),
                }
                pending = Some(Chords::parse(s.as_str()));
            },
            Token::Literal(_) => {
                let p = pending.take();
                match p {
                    Some(c) => {
                        let child = Node::ChordTextPair { chords: c, text: clone_token(t) };
                        proof {
                            lemma_nodes_view_push(children@, child);
                        }
                        children.push(child);
                    },
                    None => {
                        let child = Node::Text(clone_token(t));
                        proof {
                            lemma_nodes_view_push(children@, child);
                        }
                        children.push(child);
                    },
                }
            },
            Token::Quote(_) => {
                let p = pending.take();
                match p {
                    Some(c) => {
                        proof {
                            lemma_nodes_view_push(children@, Node::ChordStandalone(c));
                        }
                        children.push(Node::ChordStandalone(c));
                    },
                    None => (),
                }
                let child = Node::Quote(clone_token(t));
                proof {
                    lemma_nodes_view_push(children@, child);
                }
                children.push(child);
            },
            Token::Meta(_) => {
                let p = pending.take();
                match p {
                    Some(c) => {
                        proof {
                            lemma_nodes_view_push(children@, Node::ChordStandalone(c));
                        }
                        children.push(Node::ChordStandalone(c));
                    },
                    None => (),
                }
                let child = match clone_token(t) {
                    Token::Meta(m) => Node::Meta(m),
                    _ => Node::Newline,
                };
                proof {
                    lemma_nodes_view_push(children@, child);
                }
                children.push(child);
            },
            Token::Newline => {
                let p = pending.take();
                match p {
                    Some(c) => {
                        proof {
                            lemma_nodes_view_push(children@, Node::ChordStandalone(c));
                        }
                        children.push(Node::ChordStandalone(c));
                    },
                    None => (),
                }
                proof {
                    lemma_nodes_view_push(children@, Node::Newline);
                }
                children.push(Node::Newline);
            },
        }
        proof {
            assert(parse_state_of(done@, head, children@, pending) =~~= parse_step_spec(
                st0,
                tv[i as int],
            ));
        }
        i += 1;
    }
    close_current(&mut done, &mut head, &mut children, &mut pending);
    proof {
        assert(tv.take(n as int) =~= tv);
        assert(nodes_view(done@) == close_section_spec(parse_fold(tv)).done);
    }
    let r = Node::Document(done);
    proof {
        assert(r@ =~~= parse_spec(tv));
    }
    r
}

} // verus!
