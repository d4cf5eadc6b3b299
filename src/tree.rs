//! The finished concrete syntax tree: nodes with a kind and ordered children, which
//! are nodes and tokens interleaved.

use vstd::prelude::*;
use crate::kind::SyntaxKind;

verus! {

/// A token in the tree, with its exact text and the trivia before it.
pub struct SyntaxToken {
    pub kind: SyntaxKind,
    pub text: String,
    pub leading: String,
}

pub enum SyntaxElement {
    Node(SyntaxNode),
    Token(SyntaxToken),
}

/// A node; the tree owns all of its nodes.
pub struct SyntaxNode {
    pub kind: SyntaxKind,
    pub children: Vec<SyntaxElement>,
}

/// The child nodes among `s`, in order.
pub open spec fn nodes_of(s: Seq<SyntaxElement>) -> Seq<SyntaxNode>
    decreases s.len(),
{
    if s.len() == 0 {
        Seq::empty()
    } else {
        match s.last() {
            SyntaxElement::Node(n) => nodes_of(s.drop_last()).push(n),
            SyntaxElement::Token(_) => nodes_of(s.drop_last()),
        }
    }
}

/// The child tokens among `s`, in order.
pub open spec fn tokens_of(s: Seq<SyntaxElement>) -> Seq<SyntaxToken>
    decreases s.len(),
{
    if s.len() == 0 {
        Seq::empty()
    } else {
        match s.last() {
            SyntaxElement::Token(t) => tokens_of(s.drop_last()).push(t),
            SyntaxElement::Node(_) => tokens_of(s.drop_last()),
        }
    }
}

/// The first token of a subtree: its first child if that is a token, the first
/// token of its first child if that is a node, none for a node without children.
pub open spec fn first_token_of(n: SyntaxNode) -> Option<SyntaxToken>
    decreases n,
{
    if n.children@.len() == 0 {
        None
    } else {
        match n.children@[0] {
            SyntaxElement::Token(t) => Some(t),
            SyntaxElement::Node(c) => first_token_of(c),
        }
    }
}

impl SyntaxToken {
    /// A copy of the token.
    pub fn duplicate(&self) -> (r: SyntaxToken)
        ensures
            r == *self,
    {
        SyntaxToken { kind: self.kind, text: self.text.clone(), leading: self.leading.clone() }
    }
}

impl SyntaxNode {
    pub fn kind(&self) -> (r: SyntaxKind)
        ensures
            r == self.kind,
    {
        self.kind
    }

    /// The first token of the subtree.
    pub fn first_token(&self) -> (r: Option<SyntaxToken>)
        ensures
            r == first_token_of(*self),
        decreases self,
    {
        if self.children.len() == 0 {
            None
        } else {
            match &self.children[0] {
                SyntaxElement::Token(t) => Some(t.duplicate()),
                SyntaxElement::Node(c) => c.first_token(),
            }
        }
    }

    /// The `n`-th child node, counting from zero.
    pub fn nth_child(&self, n: usize) -> (r: Option<&SyntaxNode>)
        ensures
            n < nodes_of(self.children@).len() ==> r == Some(&nodes_of(self.children@)[n as int]),
            n >= nodes_of(self.children@).len() ==> r is None,
    {
        let mut seen: usize = 0;
        let mut i: usize = 0;
        while i < self.children.len()
            invariant
                i <= self.children@.len(),
                seen == nodes_of(self.children@.subrange(0, i as int)).len(),
                seen <= n,
            decreases self.children@.len() - i,
        {
            proof {
                lemma_step(self.children@, i as int);
                lemma_nodes_prefix(self.children@, i as int + 1);
            }
            if let SyntaxElement::Node(c) = &self.children[i] {
                if seen == n {
                    assert(nodes_of(self.children@.subrange(0, i as int + 1))[seen as int] == *c);
                    return Some(c);
                }
                seen = seen + 1;
            }
            i = i + 1;
        }
        proof {
            assert(self.children@.subrange(0, i as int) =~= self.children@);
        }
        None
    }

    /// The `n`-th child token, counting from zero.
    pub fn nth_token(&self, n: usize) -> (r: Option<SyntaxToken>)
        ensures
            n < tokens_of(self.children@).len() ==> r == Some(tokens_of(self.children@)[n as int]),
            n >= tokens_of(self.children@).len() ==> r is None,
    {
        let mut seen: usize = 0;
        let mut i: usize = 0;
        while i < self.children.len()
            invariant
                i <= self.children@.len(),
                seen == tokens_of(self.children@.subrange(0, i as int)).len(),
                seen <= n,
            decreases self.children@.len() - i,
        {
            proof {
                lemma_step(self.children@, i as int);
                lemma_tokens_prefix(self.children@, i as int + 1);
            }
            if let SyntaxElement::Token(t) = &self.children[i] {
                if seen == n {
                    assert(tokens_of(self.children@.subrange(0, i as int + 1))[seen as int] == *t);
                    return Some(t.duplicate());
                }
                seen = seen + 1;
            }
            i = i + 1;
        }
        proof {
            assert(self.children@.subrange(0, i as int) =~= self.children@);
        }
        None
    }

    /// The first direct child token of kind `k`.
    pub fn token_of_kind(&self, k: SyntaxKind) -> (r: Option<SyntaxToken>)
        ensures
            r is Some <==> exists|i: int| 0 <= i < tokens_of(self.children@).len() && #[trigger] tokens_of(self.children@)[i].kind == k,
            r is Some ==> r->Some_0.kind == k,
    {
        let mut i: usize = 0;
        while i < self.children.len()
            invariant
                i <= self.children@.len(),
                forall|j: int| 0 <= j < tokens_of(self.children@.subrange(0, i as int)).len() ==> #[trigger] tokens_of(self.children@.subrange(0, i as int))[j].kind != k,
            decreases self.children@.len() - i,
        {
            proof {
                lemma_step(self.children@, i as int);
                lemma_tokens_prefix(self.children@, i as int + 1);
            }
            if let SyntaxElement::Token(t) = &self.children[i] {
                if t.kind == k {
                    proof {
                        let ts = tokens_of(self.children@.subrange(0, i as int + 1));
                        let j = ts.len() - 1;
                        assert(tokens_of(self.children@)[j] == ts[j]);
                    }
                    return Some(t.duplicate());
                }
            }
            i = i + 1;
        }
        proof {
            assert(self.children@.subrange(0, i as int) =~= self.children@);
        }
        None
    }
}

/// How the child nodes and tokens of a prefix grow by one element.
proof fn lemma_step(s: Seq<SyntaxElement>, i: int)
    requires
        0 <= i < s.len(),
    ensures
        nodes_of(s.subrange(0, i + 1)) == (match s[i] {
            SyntaxElement::Node(n) => nodes_of(s.subrange(0, i)).push(n),
            SyntaxElement::Token(_) => nodes_of(s.subrange(0, i)),
        }),
        tokens_of(s.subrange(0, i + 1)) == (match s[i] {
            SyntaxElement::Token(t) => tokens_of(s.subrange(0, i)).push(t),
            SyntaxElement::Node(_) => tokens_of(s.subrange(0, i)),
        }),
{
    assert(s.subrange(0, i + 1).drop_last() =~= s.subrange(0, i));
    assert(s.subrange(0, i + 1).last() == s[i]);
}

/// The child tokens of a prefix are a prefix of the child tokens.
proof fn lemma_tokens_prefix(s: Seq<SyntaxElement>, i: int)
    requires
        0 <= i <= s.len(),
    ensures
        tokens_of(s.subrange(0, i)).len() <= tokens_of(s).len(),
        forall|j: int| 0 <= j < tokens_of(s.subrange(0, i)).len() ==> #[trigger] tokens_of(s.subrange(0, i))[j] == tokens_of(s)[j],
    decreases s.len(),
{
    if i < s.len() {
        assert(s.drop_last().subrange(0, i) =~= s.subrange(0, i));
        lemma_tokens_prefix(s.drop_last(), i);
    } else {
        assert(s.subrange(0, i) =~= s);
    }
}

/// The child nodes of a prefix are a prefix of the child nodes.
proof fn lemma_nodes_prefix(s: Seq<SyntaxElement>, i: int)
    requires
        0 <= i <= s.len(),
    ensures
        nodes_of(s.subrange(0, i)).len() <= nodes_of(s).len(),
        forall|j: int| 0 <= j < nodes_of(s.subrange(0, i)).len() ==> #[trigger] nodes_of(s.subrange(0, i))[j] == nodes_of(s)[j],
    decreases s.len(),
{
    if i < s.len() {
        assert(s.drop_last().subrange(0, i) =~= s.subrange(0, i));
        lemma_nodes_prefix(s.drop_last(), i);
    } else {
        assert(s.subrange(0, i) =~= s);
    }
}

/// The text of a subtree: its tokens, trivia included, in order.
pub open spec fn node_text(n: SyntaxNode) -> Seq<char>
    decreases n, n.children@.len() + 1,
{
    children_text(n, n.children@.len())
}

/// The text of the first `i` children of `n`.
pub open spec fn children_text(n: SyntaxNode, i: nat) -> Seq<char>
    decreases n, i,
{
    if i == 0 || i > n.children@.len() {
        Seq::empty()
    } else {
        let last = match n.children@[i - 1] {
            SyntaxElement::Token(t) => t.leading@ + t.text@,
            SyntaxElement::Node(c) => node_text(c),
        };
        children_text(n, (i - 1) as nat) + last
    }
}

impl SyntaxNode {
    /// The source text of the subtree.
    pub fn text(&self) -> (r: String)
        ensures
            r@ == node_text(*self),
        decreases self,
    {
        let mut out = String::new();
        let mut i: usize = 0;
        while i < self.children.len()
            invariant
                i <= self.children@.len(),
                out@ == children_text(*self, i as nat),
            decreases self.children@.len() - i,
        {
            match &self.children[i] {
                SyntaxElement::Token(t) => {
                    out.append(t.leading.as_str());
                    out.append(t.text.as_str());
                },
                SyntaxElement::Node(c) => {
                    let inner = c.text();
                    out.append(inner.as_str());
                },
            }
            i = i + 1;
        }
        out
    }
}

} // verus!
