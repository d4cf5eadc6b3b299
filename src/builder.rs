//! Turns a parse's event log into the tree.

use vstd::prelude::*;
use crate::kind::SyntaxKind;
use crate::decl::parse_script;
use crate::parser::{
    lossless, source_text, text_at, token_indices, token_source, upto, Diagnostic, Event, Parse,
    ParserState, Token,
};
use crate::tree::{children_text, node_text, SyntaxElement, SyntaxNode, SyntaxToken};

verus! {

/// Every token event names an input token.
pub open spec fn indices_valid(events: Seq<Event>, n: nat) -> bool {
    forall|j: int| 0 <= j < events.len() ==> (#[trigger] events[j] matches Event::Token { index } ==> index < n)
}

/// The text that the token events in `events[i..j]` spell.
pub open spec fn seg_text(events: Seq<Event>, tokens: Seq<Token>, i: int, j: int) -> Seq<char> {
    text_at(token_indices(events.subrange(i, j)), tokens)
}

/// What one event adds to the text.
pub open spec fn event_text(e: Event, tokens: Seq<Token>) -> Seq<char> {
    match e {
        Event::Token { index } => token_source(tokens[index as int]),
        _ => Seq::empty(),
    }
}

proof fn lemma_seg_step(events: Seq<Event>, tokens: Seq<Token>, i: int, j: int)
    requires
        0 <= i <= j < events.len(),
    ensures
        seg_text(events, tokens, i, j + 1) == seg_text(events, tokens, i, j) + event_text(
            events[j],
            tokens,
        ),
{
    let s = events.subrange(i, j + 1);
    assert(s.drop_last() =~= events.subrange(i, j));
    assert(s.last() == events[j]);
    match events[j] {
        Event::Token { index } => {
            assert(token_indices(s) == token_indices(events.subrange(i, j)).push(index as int));
            assert(token_indices(s).drop_last() =~= token_indices(events.subrange(i, j)));
        },
        _ => {
            assert(seg_text(events, tokens, i, j) + event_text(events[j], tokens) =~= seg_text(
                events,
                tokens,
                i,
                j,
            ));
        },
    }
}

proof fn lemma_seg_concat(events: Seq<Event>, tokens: Seq<Token>, i: int, j: int, k: int)
    requires
        0 <= i <= j <= k <= events.len(),
    ensures
        seg_text(events, tokens, i, k) == seg_text(events, tokens, i, j) + seg_text(
            events,
            tokens,
            j,
            k,
        ),
    decreases k - j,
{
    if k == j {
        assert(events.subrange(j, j) =~= Seq::<Event>::empty());
        assert(seg_text(events, tokens, j, j) =~= Seq::<char>::empty());
        assert(seg_text(events, tokens, i, j) + seg_text(events, tokens, j, k) =~= seg_text(
            events,
            tokens,
            i,
            k,
        ));
    } else {
        lemma_seg_concat(events, tokens, i, j, k - 1);
        lemma_seg_step(events, tokens, i, k - 1);
        lemma_seg_step(events, tokens, j, k - 1);
        assert(seg_text(events, tokens, i, k) =~= seg_text(events, tokens, i, j) + seg_text(
            events,
            tokens,
            j,
            k,
        ));
    }
}

proof fn lemma_children_prefix(a: SyntaxNode, b: SyntaxNode, m: nat)
    requires
        m <= a.children@.len() <= b.children@.len(),
        forall|j: int| 0 <= j < a.children@.len() ==> #[trigger] b.children@[j] == a.children@[j],
    ensures
        children_text(b, m) == children_text(a, m),
    decreases m,
{
    if m > 0 {
        lemma_children_prefix(a, b, (m - 1) as nat);
    }
}

/// The node opened at `events[i]`, with everything up to its closing event, and
/// the index just past it (the end of the log where it is never closed).
fn build_node(events: &Vec<Event>, tokens: &Vec<Token>, i: usize) -> (r: (SyntaxNode, usize))
    requires
        i < events@.len(),
        events@[i as int] is Start,
        indices_valid(events@, tokens@.len()),
    ensures
        i < r.1 <= events@.len(),
        node_text(r.0) == seg_text(events@, tokens@, i as int, r.1 as int),
        r.0.kind == events@[i as int]->Start_kind,
    decreases events@.len() - i,
{
    let kind = match events[i] {
        Event::Start { kind } => kind,
        _ => SyntaxKind::TOMBSTONE,
    };
    let mut node = SyntaxNode { kind, children: Vec::new() };
    let len = events.len();
    let mut j: usize = i + 1;
    proof {
        lemma_seg_step(events@, tokens@, i as int, i as int);
        assert(events@.subrange(i as int, i as int) =~= Seq::<Event>::empty());
    }
    while j < len
        invariant
            len == events@.len(),
            i < j <= events@.len(),
            node.kind == kind,
            kind == events@[i as int]->Start_kind,
            node_text(node) == seg_text(events@, tokens@, i as int, j as int),
            indices_valid(events@, tokens@.len()),
        decreases events@.len() - j,
    {
        let ghost prev = node;
        match events[j] {
            Event::Token { index } => {
                assert(events@[j as int] matches Event::Token { index } ==> index < tokens@.len());
                let t = &tokens[index];
                node.children.push(
                    SyntaxElement::Token(
                        SyntaxToken {
                            kind: t.kind,
                            text: t.text.clone(),
                            leading: t.leading.clone(),
                        },
                    ),
                );
                proof {
                    lemma_seg_step(events@, tokens@, i as int, j as int);
                    lemma_children_prefix(prev, node, prev.children@.len());
                }
                j = j + 1;
            },
            Event::Start { .. } => {
                let (child, next) = build_node(events, tokens, j);
                node.children.push(SyntaxElement::Node(child));
                proof {
                    lemma_seg_concat(events@, tokens@, i as int, j as int, next as int);
                    lemma_children_prefix(prev, node, prev.children@.len());
                }
                j = next;
            },
            Event::Finish => {
                proof {
                    lemma_seg_step(events@, tokens@, i as int, j as int);
                }
                return (node, j + 1);
            },
        }
    }
    (node, j)
}

/// The tree of a parse: the node that the first event opens, with every later
/// event's node or token under it, so that the tree spells exactly the text of the
/// log's tokens. An empty log gives an empty `SCRIPT` node.
pub fn build_tree(parse: &Parse) -> (r: SyntaxNode)
    requires
        indices_valid(parse.events@, parse.tokens@.len()),
    ensures
        node_text(r) == text_at(token_indices(parse.events@), parse.tokens@),
        parse.events@.len() > 0 && parse.events@[0] is Start ==> r.kind == parse.events@[0]->Start_kind,
{
    let events = &parse.events;
    let tokens = &parse.tokens;
    if events.len() == 0 {
        let r = SyntaxNode { kind: SyntaxKind::SCRIPT, children: Vec::new() };
        assert(node_text(r) =~= Seq::<char>::empty());
        return r;
    }
    let mut root = match events[0] {
        Event::Start { kind } => SyntaxNode { kind, children: Vec::new() },
        _ => SyntaxNode { kind: SyntaxKind::SCRIPT, children: Vec::new() },
    };
    let mut j: usize = match events[0] {
        Event::Start { .. } => 1,
        _ => 0,
    };
    let ghost root_kind = root.kind;
    proof {
        assert(events@.subrange(0, 0) =~= Seq::<Event>::empty());
        assert(node_text(root) =~= Seq::<char>::empty());
        if j == 1 {
            lemma_seg_step(events@, tokens@, 0, 0);
        }
    }
    while j < events.len()
        invariant
            j <= events@.len(),
            root.kind == root_kind,
            node_text(root) == seg_text(events@, tokens@, 0, j as int),
            indices_valid(events@, tokens@.len()),
        decreases events@.len() - j,
    {
        let ghost prev = root;
        match events[j] {
            Event::Token { index } => {
                assert(events@[j as int] matches Event::Token { index } ==> index < tokens@.len());
                let t = &tokens[index];
                root.children.push(
                    SyntaxElement::Token(
                        SyntaxToken {
                            kind: t.kind,
                            text: t.text.clone(),
                            leading: t.leading.clone(),
                        },
                    ),
                );
                proof {
                    lemma_seg_step(events@, tokens@, 0, j as int);
                    lemma_children_prefix(prev, root, prev.children@.len());
                }
                j = j + 1;
            },
            Event::Start { .. } => {
                let (child, next) = build_node(events, tokens, j);
                root.children.push(SyntaxElement::Node(child));
                proof {
                    lemma_seg_concat(events@, tokens@, 0, j as int, next as int);
                    lemma_children_prefix(prev, root, prev.children@.len());
                }
                j = next;
            },
            Event::Finish => {
                proof {
                    lemma_seg_step(events@, tokens@, 0, j as int);
                }
                j = j + 1;
            },
        }
    }
    proof {
        assert(events@.subrange(0, events@.len() as int) =~= events@);
    }
    root
}

proof fn lemma_upto_valid(events: Seq<Event>, n: nat)
    requires
        token_indices(events) == upto(n),
    ensures
        indices_valid(events, n),
    decreases events.len(),
{
    if events.len() > 0 {
        let rest = events.drop_last();
        match events.last() {
            Event::Token { index } => {
                assert(token_indices(events) == token_indices(rest).push(index as int));
                assert(n > 0);
                assert(token_indices(rest) =~= token_indices(events).drop_last());
                assert(token_indices(rest) =~= upto((n - 1) as nat));
                lemma_upto_valid(rest, (n - 1) as nat);
                assert(token_indices(events)[n - 1] == index);
            },
            _ => {
                lemma_upto_valid(rest, n);
            },
        }
        assert forall|j: int| 0 <= j < events.len() implies (#[trigger] events[j] matches Event::Token { index } ==> index < n) by {
            if j < events.len() - 1 {
                assert(events[j] == rest[j]);
            }
        }
    }
}

/// Parses a script and builds its tree. The tree spells the input exactly, trivia
/// included, whatever diagnostics come back beside it.
pub fn parse_script_tree(tokens: Vec<Token>, state: ParserState) -> (r: (SyntaxNode, Vec<Diagnostic>))
    ensures
        node_text(r.0) == source_text(tokens@),
        r.0.kind == SyntaxKind::SCRIPT,
{
    let parse = parse_script(tokens, state);
    proof {
        lemma_upto_valid(parse.events@, parse.tokens@.len());
        lossless(parse.events@, parse.tokens@);
    }
    let root = build_tree(&parse);
    (root, parse.diagnostics)
}

} // verus!
