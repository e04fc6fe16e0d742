//! Typed views over generic nodes.
//!
//! A view borrows exactly one node whose kind matches the view, and finds its
//! parts by scanning that node's children in document order each time it is
//! asked. Views are made only by the classifiers `Root::cast`, `Stmt::cast` and
//! `Expr::cast`.
use vstd::prelude::*;

use crate::number::{is_u64_text, parse_u64, u64_text_value};
use crate::tree::{first_token_of, SyntaxElement, SyntaxKind, SyntaxNode, SyntaxToken};

verus! {

/// The node kinds that `Expr::cast` recognizes.
pub open spec fn is_expr_kind(k: SyntaxKind) -> bool {
    ||| k == SyntaxKind::InfixExpr
    ||| k == SyntaxKind::Literal
    ||| k == SyntaxKind::ParenExpr
    ||| k == SyntaxKind::PrefixExpr
    ||| k == SyntaxKind::VariableRef
}

/// The node kinds that `Stmt::cast` recognizes.
pub open spec fn is_stmt_kind(k: SyntaxKind) -> bool {
    k == SyntaxKind::VariableDef || is_expr_kind(k)
}

/// The token kinds of a binary operator.
pub open spec fn is_binary_op(k: SyntaxKind) -> bool {
    ||| k == SyntaxKind::Plus
    ||| k == SyntaxKind::Minus
    ||| k == SyntaxKind::Star
    ||| k == SyntaxKind::Slash
}

/// The child nodes in `s` whose kind satisfies `p`, in document order.
pub open spec fn nodes_where(s: Seq<SyntaxElement>, p: spec_fn(SyntaxKind) -> bool) -> Seq<
    SyntaxNode,
>
    decreases s.len(),
{
    if s.len() == 0 {
        seq![]
    } else {
        let rest = nodes_where(s.drop_last(), p);
        match s.last() {
            SyntaxElement::Node(n) => if p(n.kind) {
                rest.push(n)
            } else {
                rest
            },
            SyntaxElement::Token(_) => rest,
        }
    }
}

/// The tokens in `s` whose kind satisfies `p`, in document order.
pub open spec fn tokens_where(s: Seq<SyntaxElement>, p: spec_fn(SyntaxKind) -> bool) -> Seq<
    SyntaxToken,
>
    decreases s.len(),
{
    if s.len() == 0 {
        seq![]
    } else {
        let rest = tokens_where(s.drop_last(), p);
        match s.last() {
            SyntaxElement::Token(t) => if p(t.kind) {
                rest.push(t)
            } else {
                rest
            },
            SyntaxElement::Node(_) => rest,
        }
    }
}

/// The children in `s` that cast to an expression, in document order.
pub open spec fn expr_nodes(s: Seq<SyntaxElement>) -> Seq<SyntaxNode> {
    nodes_where(s, |k: SyntaxKind| is_expr_kind(k))
}

/// The children in `s` that cast to a statement, in document order.
pub open spec fn stmt_nodes(s: Seq<SyntaxElement>) -> Seq<SyntaxNode> {
    nodes_where(s, |k: SyntaxKind| is_stmt_kind(k))
}

/// The identifier tokens in `s`, in document order.
pub open spec fn ident_tokens(s: Seq<SyntaxElement>) -> Seq<SyntaxToken> {
    tokens_where(s, |k: SyntaxKind| k == SyntaxKind::Ident)
}

/// The binary operator tokens in `s`, in document order.
pub open spec fn binary_op_tokens(s: Seq<SyntaxElement>) -> Seq<SyntaxToken> {
    tokens_where(s, |k: SyntaxKind| is_binary_op(k))
}

/// The minus tokens in `s`, in document order.
pub open spec fn minus_tokens(s: Seq<SyntaxElement>) -> Seq<SyntaxToken> {
    tokens_where(s, |k: SyntaxKind| k == SyntaxKind::Minus)
}

/// Filtering a prefix of `s` gives a prefix of the filtered `s`.
pub proof fn lemma_nodes_where_prefix(s: Seq<SyntaxElement>, p: spec_fn(SyntaxKind) -> bool, j: int)
    requires
        0 <= j <= s.len(),
    ensures
        nodes_where(s.subrange(0, j), p).len() <= nodes_where(s, p).len(),
        forall|k: int|
            0 <= k < nodes_where(s.subrange(0, j), p).len() ==> #[trigger] nodes_where(
                s.subrange(0, j),
                p,
            )[k] == nodes_where(s, p)[k],
    decreases s.len(),
{
    if j < s.len() {
        let t = s.drop_last();
        assert(s.subrange(0, j) =~= t.subrange(0, j));
        lemma_nodes_where_prefix(t, p, j);
    } else {
        assert(s.subrange(0, j) =~= s);
    }
}

/// Filtering a prefix of `s` gives a prefix of the filtered `s`.
pub proof fn lemma_tokens_where_prefix(s: Seq<SyntaxElement>, p: spec_fn(SyntaxKind) -> bool, j: int)
    requires
        0 <= j <= s.len(),
    ensures
        tokens_where(s.subrange(0, j), p).len() <= tokens_where(s, p).len(),
        forall|k: int|
            0 <= k < tokens_where(s.subrange(0, j), p).len() ==> #[trigger] tokens_where(
                s.subrange(0, j),
                p,
            )[k] == tokens_where(s, p)[k],
    decreases s.len(),
{
    if j < s.len() {
        let t = s.drop_last();
        assert(s.subrange(0, j) =~= t.subrange(0, j));
        lemma_tokens_where_prefix(t, p, j);
    } else {
        assert(s.subrange(0, j) =~= s);
    }
}

/// A binary operation: an `InfixExpr` node.
#[derive(Clone, Copy, Debug)]
pub struct BinaryExpr<'a> {
    node: &'a SyntaxNode,
}

/// A literal: a `Literal` node.
#[derive(Clone, Copy, Debug)]
pub struct Literal<'a> {
    node: &'a SyntaxNode,
}

/// A parenthesized expression: a `ParenExpr` node.
#[derive(Clone, Copy, Debug)]
pub struct ParenExpr<'a> {
    node: &'a SyntaxNode,
}

/// A unary operation: a `PrefixExpr` node.
#[derive(Clone, Copy, Debug)]
pub struct UnaryExpr<'a> {
    node: &'a SyntaxNode,
}

/// A reference to a variable: a `VariableRef` node.
#[derive(Clone, Copy, Debug)]
pub struct VariableRef<'a> {
    node: &'a SyntaxNode,
}

/// A variable definition: a `VariableDef` node.
#[derive(Clone, Copy, Debug)]
pub struct VariableDef<'a> {
    node: &'a SyntaxNode,
}

/// The root of a tree: a `Root` node.
#[derive(Clone, Copy, Debug)]
pub struct Root<'a> {
    node: &'a SyntaxNode,
}

/// An expression of one of the five recognized shapes.
#[derive(Clone, Copy, Debug)]
pub enum Expr<'a> {
    BinaryExpr(BinaryExpr<'a>),
    Literal(Literal<'a>),
    ParenExpr(ParenExpr<'a>),
    UnaryExpr(UnaryExpr<'a>),
    VariableRef(VariableRef<'a>),
}

/// A statement: a variable definition or an expression.
#[derive(Clone, Copy, Debug)]
pub enum Stmt<'a> {
    VariableDef(VariableDef<'a>),
    Expr(Expr<'a>),
}

impl<'a> BinaryExpr<'a> {
    /// The node this view wraps.
    pub closed spec fn node(&self) -> SyntaxNode {
        *self.node
    }

    /// The wrapped node is a `InfixExpr` node.
    #[verifier::type_invariant]
    closed spec fn kind_matches(&self) -> bool {
        self.node.kind == SyntaxKind::InfixExpr
    }

    /// The left operand: the first child that casts to an expression.
    pub fn lhs(&self) -> (r: Option<Expr<'a>>)
        ensures
            r is Some <==> expr_nodes(self.node().children@).len() > 0,
            r matches Some(e) ==> e.node() == expr_nodes(self.node().children@)[0] && e.wf(),
    {
        nth_expr(self.node, 0)
    }

    /// The right operand: the second child that casts to an expression.
    pub fn rhs(&self) -> (r: Option<Expr<'a>>)
        ensures
            r is Some <==> expr_nodes(self.node().children@).len() > 1,
            r matches Some(e) ==> e.node() == expr_nodes(self.node().children@)[1] && e.wf(),
    {
        nth_expr(self.node, 1)
    }

    /// The operator: the first token that is `+`, `-`, `*` or `/`.
    pub fn op(&self) -> (r: Option<&'a SyntaxToken>)
        ensures
            r is Some <==> binary_op_tokens(self.node().children@).len() > 0,
            r matches Some(t) ==> *t == binary_op_tokens(self.node().children@)[0],
    {
        let node = self.node;
        let ghost s = self.node().children@;
        let mut i: usize = 0;
        while i < node.children.len()
            invariant
                s == node.children@,
                s == self.node().children@,
                0 <= i <= s.len(),
                binary_op_tokens(s.subrange(0, i as int)).len() == 0,
            decreases s.len() - i,
        {
            proof {
                assert(s.subrange(0, i + 1).drop_last() =~= s.subrange(0, i as int));
            }
            if let SyntaxElement::Token(t) = &node.children[i] {
                if matches!(
                    t.kind,
                    SyntaxKind::Plus | SyntaxKind::Minus | SyntaxKind::Star | SyntaxKind::Slash
                ) {
                    proof {
                        lemma_tokens_where_prefix(s, |k: SyntaxKind| is_binary_op(k), i + 1);
                        assert(binary_op_tokens(s.subrange(0, i + 1))[0] == *t);
                    }
                    return Some(t);
                }
            }
            i = i + 1;
        }
        proof {
            assert(s.subrange(0, i as int) =~= s);
        }
        None
    }

    /// The wrapped node itself, as the view was cast from it.
    pub fn syntax(&self) -> (r: &'a SyntaxNode)
        ensures
            *r == self.node(),
    {
        self.node
    }
}

impl<'a> Literal<'a> {
    /// The node this view wraps.
    pub closed spec fn node(&self) -> SyntaxNode {
        *self.node
    }

    /// The wrapped node is a `Literal` node.
    #[verifier::type_invariant]
    closed spec fn kind_matches(&self) -> bool {
        self.node.kind == SyntaxKind::Literal
    }

    /// The value of the literal: its first token's text read as a `u64`.
    pub fn parse(&self) -> (r: u64)
        requires
            first_token_of(self.node()) is Some,
            is_u64_text(first_token_of(self.node())->0.text@),
        ensures
            r == u64_text_value(first_token_of(self.node())->0.text@),
    {
        let t = self.node.first_token().unwrap();
        parse_u64(t.text()).unwrap()
    }

    /// The wrapped node itself, as the view was cast from it.
    pub fn syntax(&self) -> (r: &'a SyntaxNode)
        ensures
            *r == self.node(),
    {
        self.node
    }
}

impl<'a> ParenExpr<'a> {
    /// The node this view wraps.
    pub closed spec fn node(&self) -> SyntaxNode {
        *self.node
    }

    /// The wrapped node is a `ParenExpr` node.
    #[verifier::type_invariant]
    closed spec fn kind_matches(&self) -> bool {
        self.node.kind == SyntaxKind::ParenExpr
    }

    /// The inner expression: the first child that casts to an expression.
    pub fn expr(&self) -> (r: Option<Expr<'a>>)
        ensures
            r is Some <==> expr_nodes(self.node().children@).len() > 0,
            r matches Some(e) ==> e.node() == expr_nodes(self.node().children@)[0] && e.wf(),
    {
        nth_expr(self.node, 0)
    }

    /// The wrapped node itself, as the view was cast from it.
    pub fn syntax(&self) -> (r: &'a SyntaxNode)
        ensures
            *r == self.node(),
    {
        self.node
    }
}

impl<'a> UnaryExpr<'a> {
    /// The node this view wraps.
    pub closed spec fn node(&self) -> SyntaxNode {
        *self.node
    }

    /// The wrapped node is a `PrefixExpr` node.
    #[verifier::type_invariant]
    closed spec fn kind_matches(&self) -> bool {
        self.node.kind == SyntaxKind::PrefixExpr
    }

    /// The operator: the first `-` token.
    pub fn op(&self) -> (r: Option<&'a SyntaxToken>)
        ensures
            r is Some <==> minus_tokens(self.node().children@).len() > 0,
            r matches Some(t) ==> *t == minus_tokens(self.node().children@)[0],
    {
        let node = self.node;
        let ghost s = self.node().children@;
        let mut i: usize = 0;
        while i < node.children.len()
            invariant
                s == node.children@,
                s == self.node().children@,
                0 <= i <= s.len(),
                minus_tokens(s.subrange(0, i as int)).len() == 0,
            decreases s.len() - i,
        {
            proof {
                assert(s.subrange(0, i + 1).drop_last() =~= s.subrange(0, i as int));
            }
            if let SyntaxElement::Token(t) = &node.children[i] {
                if t.kind == SyntaxKind::Minus {
                    proof {
                        lemma_tokens_where_prefix(s, |k: SyntaxKind| k == SyntaxKind::Minus, i + 1);
                        assert(minus_tokens(s.subrange(0, i + 1))[0] == *t);
                    }
                    return Some(t);
                }
            }
            i = i + 1;
        }
        proof {
            assert(s.subrange(0, i as int) =~= s);
        }
        None
    }

    /// The operand: the first child that casts to an expression.
    pub fn expr(&self) -> (r: Option<Expr<'a>>)
        ensures
            r is Some <==> expr_nodes(self.node().children@).len() > 0,
            r matches Some(e) ==> e.node() == expr_nodes(self.node().children@)[0] && e.wf(),
    {
        nth_expr(self.node, 0)
    }

    /// The wrapped node itself, as the view was cast from it.
    pub fn syntax(&self) -> (r: &'a SyntaxNode)
        ensures
            *r == self.node(),
    {
        self.node
    }
}

impl<'a> VariableRef<'a> {
    /// The node this view wraps.
    pub closed spec fn node(&self) -> SyntaxNode {
        *self.node
    }

    /// The wrapped node is a `VariableRef` node.
    #[verifier::type_invariant]
    closed spec fn kind_matches(&self) -> bool {
        self.node.kind == SyntaxKind::VariableRef
    }

    /// The referenced name: the text of the node's first token.
    pub fn name(&self) -> (r: &'a str)
        requires
            first_token_of(self.node()) is Some,
        ensures
            r@ == first_token_of(self.node())->0.text@,
    {
        let t = self.node.first_token().unwrap();
        t.text()
    }

    /// The wrapped node itself, as the view was cast from it.
    pub fn syntax(&self) -> (r: &'a SyntaxNode)
        ensures
            *r == self.node(),
    {
        self.node
    }
}

impl<'a> VariableDef<'a> {
    /// The node this view wraps.
    pub closed spec fn node(&self) -> SyntaxNode {
        *self.node
    }

    /// The wrapped node is a `VariableDef` node.
    #[verifier::type_invariant]
    closed spec fn kind_matches(&self) -> bool {
        self.node.kind == SyntaxKind::VariableDef
    }

    /// The defined name: the first identifier token.
    pub fn name(&self) -> (r: Option<&'a SyntaxToken>)
        ensures
            r is Some <==> ident_tokens(self.node().children@).len() > 0,
            r matches Some(t) ==> *t == ident_tokens(self.node().children@)[0],
    {
        let node = self.node;
        let ghost s = self.node().children@;
        let mut i: usize = 0;
        while i < node.children.len()
            invariant
                s == node.children@,
                s == self.node().children@,
                0 <= i <= s.len(),
                ident_tokens(s.subrange(0, i as int)).len() == 0,
            decreases s.len() - i,
        {
            proof {
                assert(s.subrange(0, i + 1).drop_last() =~= s.subrange(0, i as int));
            }
            if let SyntaxElement::Token(t) = &node.children[i] {
                if t.kind == SyntaxKind::Ident {
                    proof {
                        lemma_tokens_where_prefix(s, |k: SyntaxKind| k == SyntaxKind::Ident, i + 1);
                        assert(ident_tokens(s.subrange(0, i + 1))[0] == *t);
                    }
                    return Some(t);
                }
            }
            i = i + 1;
        }
        proof {
            assert(s.subrange(0, i as int) =~= s);
        }
        None
    }

    /// The bound value: the first child that casts to an expression.
    pub fn value(&self) -> (r: Option<Expr<'a>>)
        ensures
            r is Some <==> expr_nodes(self.node().children@).len() > 0,
            r matches Some(e) ==> e.node() == expr_nodes(self.node().children@)[0] && e.wf(),
    {
        nth_expr(self.node, 0)
    }

    /// The wrapped node itself, as the view was cast from it.
    pub fn syntax(&self) -> (r: &'a SyntaxNode)
        ensures
            *r == self.node(),
    {
        self.node
    }
}

impl<'a> Root<'a> {
    /// The node this view wraps.
    pub closed spec fn node(&self) -> SyntaxNode {
        *self.node
    }

    /// The wrapped node is a `Root` node.
    #[verifier::type_invariant]
    closed spec fn kind_matches(&self) -> bool {
        self.node.kind == SyntaxKind::Root
    }

    /// The statements of the tree: the children that cast to a statement, in
    /// document order; the other children are skipped.
    pub fn stmts(&self) -> (r: Vec<Stmt<'a>>)
        ensures
            r@.len() == stmt_nodes(self.node().children@).len(),
            forall|i: int|
                0 <= i < r@.len() ==> (#[trigger] r@[i]).node() == stmt_nodes(
                    self.node().children@,
                )[i] && r@[i].wf(),
    {
        let node = self.node;
        let ghost s = self.node().children@;
        let mut r: Vec<Stmt<'a>> = Vec::new();
        let mut i: usize = 0;
        while i < node.children.len()
            invariant
                s == node.children@,
                0 <= i <= s.len(),
                r@.len() == stmt_nodes(s.subrange(0, i as int)).len(),
                forall|k: int|
                    0 <= k < r@.len() ==> (#[trigger] r@[k]).node() == stmt_nodes(
                        s.subrange(0, i as int),
                    )[k] && r@[k].wf(),
            decreases s.len() - i,
        {
            proof {
                assert(s.subrange(0, i + 1).drop_last() =~= s.subrange(0, i as int));
            }
            if let SyntaxElement::Node(c) = &node.children[i] {
                if let Some(st) = Stmt::cast(c) {
                    r.push(st);
                }
            }
            i = i + 1;
        }
        proof {
            assert(s.subrange(0, i as int) =~= s);
        }
        r
    }

    /// The wrapped node itself, as the view was cast from it.
    pub fn syntax(&self) -> (r: &'a SyntaxNode)
        ensures
            *r == self.node(),
    {
        self.node
    }

    /// Views `node` as a root if its kind is `Root`.
    pub fn cast(node: &'a SyntaxNode) -> (r: Option<Root<'a>>)
        ensures
            r is Some <==> node.kind == SyntaxKind::Root,
            r matches Some(v) ==> v.node() == *node,
    {
        if node.kind == SyntaxKind::Root {
            Some(Root { node })
        } else {
            None
        }
    }
}

impl<'a> Expr<'a> {
    /// The node this expression wraps.
    pub open spec fn node(&self) -> SyntaxNode {
        match self {
            Expr::BinaryExpr(v) => v.node(),
            Expr::Literal(v) => v.node(),
            Expr::ParenExpr(v) => v.node(),
            Expr::UnaryExpr(v) => v.node(),
            Expr::VariableRef(v) => v.node(),
        }
    }

    /// The node kind that this expression's variant stands for.
    pub open spec fn variant_kind(&self) -> SyntaxKind {
        match self {
            Expr::BinaryExpr(_) => SyntaxKind::InfixExpr,
            Expr::Literal(_) => SyntaxKind::Literal,
            Expr::ParenExpr(_) => SyntaxKind::ParenExpr,
            Expr::UnaryExpr(_) => SyntaxKind::PrefixExpr,
            Expr::VariableRef(_) => SyntaxKind::VariableRef,
        }
    }

    /// The variant agrees with the kind of the wrapped node.
    pub open spec fn wf(&self) -> bool {
        self.variant_kind() == self.node().kind
    }

    /// The wrapped node itself, as the view was cast from it.
    pub fn syntax(&self) -> (r: &'a SyntaxNode)
        ensures
            *r == self.node(),
    {
        match self {
            Expr::BinaryExpr(v) => v.syntax(),
            Expr::Literal(v) => v.syntax(),
            Expr::ParenExpr(v) => v.syntax(),
            Expr::UnaryExpr(v) => v.syntax(),
            Expr::VariableRef(v) => v.syntax(),
        }
    }

    /// Views `node` as the expression its kind names, if it names one.
    pub fn cast(node: &'a SyntaxNode) -> (r: Option<Expr<'a>>)
        ensures
            r is Some <==> is_expr_kind(node.kind),
            r matches Some(e) ==> e.node() == *node && e.wf(),
    {
        match node.kind {
            SyntaxKind::InfixExpr => Some(Expr::BinaryExpr(BinaryExpr { node })),
            SyntaxKind::Literal => Some(Expr::Literal(Literal { node })),
            SyntaxKind::ParenExpr => Some(Expr::ParenExpr(ParenExpr { node })),
            SyntaxKind::PrefixExpr => Some(Expr::UnaryExpr(UnaryExpr { node })),
            SyntaxKind::VariableRef => Some(Expr::VariableRef(VariableRef { node })),
            _ => None,
        }
    }
}

impl<'a> Stmt<'a> {
    /// The node this statement wraps.
    pub open spec fn node(&self) -> SyntaxNode {
        match self {
            Stmt::VariableDef(v) => v.node(),
            Stmt::Expr(e) => e.node(),
        }
    }

    /// The variant agrees with the kind of the wrapped node.
    pub open spec fn wf(&self) -> bool {
        match self {
            Stmt::VariableDef(v) => v.node().kind == SyntaxKind::VariableDef,
            Stmt::Expr(e) => e.wf(),
        }
    }

    /// The wrapped node itself, as the view was cast from it.
    pub fn syntax(&self) -> (r: &'a SyntaxNode)
        ensures
            *r == self.node(),
    {
        match self {
            Stmt::VariableDef(v) => v.syntax(),
            Stmt::Expr(e) => e.syntax(),
        }
    }

    /// Views `node` as a variable definition if its kind is `VariableDef`,
    /// else as the expression its kind names, if it names one.
    pub fn cast(node: &'a SyntaxNode) -> (r: Option<Stmt<'a>>)
        ensures
            r is Some <==> is_stmt_kind(node.kind),
            r matches Some(st) ==> st.node() == *node && st.wf(),
    {
        match node.kind {
            SyntaxKind::VariableDef => Some(Stmt::VariableDef(VariableDef { node })),
            _ => match Expr::cast(node) {
                Some(e) => Some(Stmt::Expr(e)),
                None => None,
            },
        }
    }
}

/// An expression view is determined by the node it wraps: two well-formed
/// expressions over equal nodes are equal. So an accessor called twice on one
/// view, whose contract fixes the node it returns, yields equal results, and
/// casting the node that a view wraps gives that view back.
pub proof fn lemma_expr_determined_by_node(a: Expr, b: Expr)
    requires
        a.wf(),
        b.wf(),
        a.node() == b.node(),
    ensures
        a == b,
{
}

/// A statement view is determined by the node it wraps: two well-formed
/// statements over equal nodes are equal.
pub proof fn lemma_stmt_determined_by_node(a: Stmt, b: Stmt)
    requires
        a.wf(),
        b.wf(),
        a.node() == b.node(),
    ensures
        a == b,
{
}

/// A root view is determined by the node it wraps.
pub proof fn lemma_root_determined_by_node(a: Root, b: Root)
    requires
        a.node() == b.node(),
    ensures
        a == b,
{
}

/// The `n`-th child of `node` (counting from zero) that casts to an expression.
fn nth_expr<'a>(node: &'a SyntaxNode, n: usize) -> (r: Option<Expr<'a>>)
    ensures
        r is Some <==> n < expr_nodes(node.children@).len(),
        r matches Some(e) ==> e.node() == expr_nodes(node.children@)[n as int] && e.wf(),
{
    let ghost s = node.children@;
    let mut seen: usize = 0;
    let mut i: usize = 0;
    while i < node.children.len()
        invariant
            s == node.children@,
            0 <= i <= s.len(),
            seen == expr_nodes(s.subrange(0, i as int)).len(),
            seen <= n,
        decreases s.len() - i,
    {
        proof {
            assert(s.subrange(0, i + 1).drop_last() =~= s.subrange(0, i as int));
        }
        if let SyntaxElement::Node(c) = &node.children[i] {
            if let Some(e) = Expr::cast(c) {
                if seen == n {
                    proof {
                        lemma_nodes_where_prefix(s, |k: SyntaxKind| is_expr_kind(k), i + 1);
                        assert(expr_nodes(s.subrange(0, i + 1))[seen as int] == *c);
                    }
                    return Some(e);
                }
                seen = seen + 1;
            }
        }
        i = i + 1;
    }
    proof {
        assert(s.subrange(0, i as int) =~= s);
    }
    None
}

} // verus!
