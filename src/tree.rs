//! The generic syntax tree: every node carries a kind tag and an ordered
//! sequence of children, each either a node or a token; a token carries a
//! kind tag and its text.
use vstd::prelude::*;

verus! {

/// The kind tag of a node or a token.
#[derive(Clone, Copy, Debug, PartialEq, Eq, Structural)]
pub enum SyntaxKind {
    Whitespace,
    FnKw,
    LetKw,
    Ident,
    Number,
    Plus,
    Minus,
    Star,
    Slash,
    Equals,
    LParen,
    RParen,
    LBrace,
    RBrace,
    Comment,
    Error,
    Root,
    InfixExpr,
    Literal,
    ParenExpr,
    PrefixExpr,
    VariableDef,
    VariableRef,
}

/// A leaf of the tree: a kind tag and the text it covers.
#[derive(Debug)]
pub struct SyntaxToken {
    pub kind: SyntaxKind,
    pub text: String,
}

/// A child of a node: either a node or a token.
#[derive(Debug)]
pub enum SyntaxElement {
    Node(SyntaxNode),
    Token(SyntaxToken),
}

/// An inner node of the tree: a kind tag and its children in document order.
#[derive(Debug)]
pub struct SyntaxNode {
    pub kind: SyntaxKind,
    pub children: Vec<SyntaxElement>,
}

/// The token that `first_token` of a node finds: descend into the first child
/// until it is a token. A node without children, or whose leftmost descent
/// ends in a node without children, has none.
pub open spec fn first_token_of(n: SyntaxNode) -> Option<SyntaxToken>
    decreases n,
{
    if n.children@.len() == 0 {
        None
    } else {
        match n.children@[0] {
            SyntaxElement::Token(t) => Some(t),
            SyntaxElement::Node(c) => {
                if decreases_to!(n => c) {
                    first_token_of(c)
                } else {
                    None
                }
            },
        }
    }
}

impl SyntaxToken {
    pub fn new(kind: SyntaxKind, text: String) -> (r: SyntaxToken)
        ensures
            r.kind == kind,
            r.text@ == text@,
    {
        SyntaxToken { kind, text }
    }

    pub fn kind(&self) -> (r: SyntaxKind)
        ensures
            r == self.kind,
    {
        self.kind
    }

    pub fn text(&self) -> (r: &str)
        ensures
            r@ == self.text@,
    {
        self.text.as_str()
    }
}

impl SyntaxNode {
    pub fn new(kind: SyntaxKind, children: Vec<SyntaxElement>) -> (r: SyntaxNode)
        ensures
            r.kind == kind,
            r.children@ == children@,
    {
        SyntaxNode { kind, children }
    }

    pub fn kind(&self) -> (r: SyntaxKind)
        ensures
            r == self.kind,
    {
        self.kind
    }

    /// The node's children, nodes and tokens interleaved, in document order.
    pub fn children_with_tokens(&self) -> (r: &[SyntaxElement])
        ensures
            r@ == self.children@,
    {
        self.children.as_slice()
    }

    /// The first token of the subtree: the first child if it is a token,
    /// else the first token of the first child.
    pub fn first_token(&self) -> (r: Option<&SyntaxToken>)
        ensures
            match r {
                Some(t) => first_token_of(*self) == Some(*t),
                None => first_token_of(*self) is None,
            },
        decreases *self,
    {
        if self.children.len() == 0 {
            None
        } else {
            match &self.children[0] {
                SyntaxElement::Token(t) => Some(t),
                SyntaxElement::Node(c) => {
                    proof {
                        assert(decreases_to!(*self => *c));
                    }
                    c.first_token()
                },
            }
        }
    }
}

} // verus!
