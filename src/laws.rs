//! Laws of the typed views, stated over the spec functions that the views'
//! contracts use.
use vstd::prelude::*;

use crate::tree::{SyntaxElement, SyntaxKind, SyntaxNode, SyntaxToken};
use crate::views::{
    binary_op_tokens, expr_nodes, is_binary_op, is_expr_kind, nodes_where, tokens_where,
};

verus! {

/// Whether the element is a node whose kind satisfies `p`.
pub open spec fn is_node_where(e: SyntaxElement, p: spec_fn(SyntaxKind) -> bool) -> bool {
    e matches SyntaxElement::Node(n) && p(n.kind)
}

/// Whether the element is a token whose kind satisfies `p`.
pub open spec fn is_token_where(e: SyntaxElement, p: spec_fn(SyntaxKind) -> bool) -> bool {
    e matches SyntaxElement::Token(t) && p(t.kind)
}

/// Filtering nodes distributes over concatenation.
pub proof fn lemma_nodes_where_add(
    a: Seq<SyntaxElement>,
    b: Seq<SyntaxElement>,
    p: spec_fn(SyntaxKind) -> bool,
)
    ensures
        nodes_where(a + b, p) == nodes_where(a, p) + nodes_where(b, p),
    decreases b.len(),
{
    if b.len() == 0 {
        assert(a + b =~= a);
        assert(nodes_where(a, p) + nodes_where(b, p) =~= nodes_where(a, p));
    } else {
        assert((a + b).drop_last() =~= a + b.drop_last());
        lemma_nodes_where_add(a, b.drop_last(), p);
        assert(nodes_where(a + b, p) =~= nodes_where(a, p) + nodes_where(b, p));
    }
}

/// Filtering tokens distributes over concatenation.
pub proof fn lemma_tokens_where_add(
    a: Seq<SyntaxElement>,
    b: Seq<SyntaxElement>,
    p: spec_fn(SyntaxKind) -> bool,
)
    ensures
        tokens_where(a + b, p) == tokens_where(a, p) + tokens_where(b, p),
    decreases b.len(),
{
    if b.len() == 0 {
        assert(a + b =~= a);
        assert(tokens_where(a, p) + tokens_where(b, p) =~= tokens_where(a, p));
    } else {
        assert((a + b).drop_last() =~= a + b.drop_last());
        lemma_tokens_where_add(a, b.drop_last(), p);
        assert(tokens_where(a + b, p) =~= tokens_where(a, p) + tokens_where(b, p));
    }
}

/// A sequence with no matching node filters to nothing.
pub proof fn lemma_nodes_where_none(s: Seq<SyntaxElement>, p: spec_fn(SyntaxKind) -> bool)
    requires
        forall|m: int| 0 <= m < s.len() ==> !is_node_where(#[trigger] s[m], p),
    ensures
        nodes_where(s, p) == Seq::<SyntaxNode>::empty(),
    decreases s.len(),
{
    if s.len() > 0 {
        assert(!is_node_where(s[s.len() - 1], p));
        lemma_nodes_where_none(s.drop_last(), p);
    }
    assert(nodes_where(s, p) =~= Seq::<SyntaxNode>::empty());
}

/// A sequence with no matching token filters to nothing.
pub proof fn lemma_tokens_where_none(s: Seq<SyntaxElement>, p: spec_fn(SyntaxKind) -> bool)
    requires
        forall|m: int| 0 <= m < s.len() ==> !is_token_where(#[trigger] s[m], p),
    ensures
        tokens_where(s, p) == Seq::<SyntaxToken>::empty(),
    decreases s.len(),
{
    if s.len() > 0 {
        assert(!is_token_where(s[s.len() - 1], p));
        lemma_tokens_where_none(s.drop_last(), p);
    }
    assert(tokens_where(s, p) =~= Seq::<SyntaxToken>::empty());
}

/// Whether the element is a child node that casts to an expression.
pub open spec fn is_expr_child(e: SyntaxElement) -> bool {
    e matches SyntaxElement::Node(n) && is_expr_kind(n.kind)
}

/// Whether the element is a binary operator token.
pub open spec fn is_op_token(e: SyntaxElement) -> bool {
    e matches SyntaxElement::Token(t) && is_binary_op(t.kind)
}

/// A stretch of `s` in which no child casts to an expression holds no
/// expression children.
proof fn lemma_expr_nodes_outside(s: Seq<SyntaxElement>, lo: int, hi: int)
    requires
        0 <= lo <= hi <= s.len(),
        forall|m: int| lo <= m < hi ==> !is_expr_child(#[trigger] s[m]),
    ensures
        expr_nodes(s.subrange(lo, hi)) == Seq::<SyntaxNode>::empty(),
{
    let p = |k: SyntaxKind| is_expr_kind(k);
    let t = s.subrange(lo, hi);
    assert forall|m: int| 0 <= m < t.len() implies !is_node_where(#[trigger] t[m], p) by {
        assert(t[m] == s[lo + m]);
    }
    lemma_nodes_where_none(t, p);
}

/// A stretch of `s` in which no token is a binary operator holds no operator
/// tokens.
proof fn lemma_op_tokens_outside(s: Seq<SyntaxElement>, lo: int, hi: int)
    requires
        0 <= lo <= hi <= s.len(),
        forall|m: int| lo <= m < hi ==> !is_op_token(#[trigger] s[m]),
    ensures
        binary_op_tokens(s.subrange(lo, hi)) == Seq::<SyntaxToken>::empty(),
{
    let p = |k: SyntaxKind| is_binary_op(k);
    let t = s.subrange(lo, hi);
    assert forall|m: int| 0 <= m < t.len() implies !is_token_where(#[trigger] t[m], p) by {
        assert(t[m] == s[lo + m]);
    }
    lemma_tokens_where_none(t, p);
}

/// The expression children of a one-element sequence.
proof fn lemma_expr_nodes_single(x: SyntaxElement)
    ensures
        is_expr_child(x) ==> expr_nodes(seq![x]) == seq![x->Node_0],
        !is_expr_child(x) ==> expr_nodes(seq![x]) == Seq::<SyntaxNode>::empty(),
{
    reveal_with_fuel(nodes_where, 2);
    assert(seq![x].drop_last() =~= Seq::<SyntaxElement>::empty());
    assert(seq![x].last() == x);
    if is_expr_child(x) {
        assert(expr_nodes(seq![x]) =~= seq![x->Node_0]);
    } else {
        assert(expr_nodes(seq![x]) =~= Seq::<SyntaxNode>::empty());
    }
}

/// The binary operator tokens of a one-element sequence.
proof fn lemma_op_tokens_single(x: SyntaxElement)
    ensures
        is_op_token(x) ==> binary_op_tokens(seq![x]) == seq![x->Token_0],
{
    reveal_with_fuel(tokens_where, 2);
    assert(seq![x].drop_last() =~= Seq::<SyntaxElement>::empty());
    assert(seq![x].last() == x);
    if is_op_token(x) {
        assert(binary_op_tokens(seq![x]) =~= seq![x->Token_0]);
    }
}

/// The parts of a binary operation keep document order: where the only
/// children of a node that cast to an expression stand at `i` and at `j`
/// after it, the left operand (`BinaryExpr::lhs`) is the child at `i` and the
/// right operand (`BinaryExpr::rhs`) the child at `j`, whatever their shapes;
/// where the only operator token stands at `k`, the operator
/// (`BinaryExpr::op`) is that token.
pub proof fn lemma_binary_expr_parts_in_order(n: SyntaxNode, i: int, j: int, k: int)
    requires
        n.kind == SyntaxKind::InfixExpr,
        0 <= i < j < n.children@.len(),
        0 <= k < n.children@.len(),
        is_expr_child(n.children@[i]),
        is_expr_child(n.children@[j]),
        forall|m: int|
            0 <= m < n.children@.len() && m != i && m != j ==> !is_expr_child(
                #[trigger] n.children@[m],
            ),
        is_op_token(n.children@[k]),
        forall|m: int|
            0 <= m < n.children@.len() && m != k ==> !is_op_token(#[trigger] n.children@[m]),
    ensures
        expr_nodes(n.children@) == seq![n.children@[i]->Node_0, n.children@[j]->Node_0],
        binary_op_tokens(n.children@) == seq![n.children@[k]->Token_0],
{
    let s = n.children@;
    let len = s.len() as int;
    let pe = |kk: SyntaxKind| is_expr_kind(kk);
    let po = |kk: SyntaxKind| is_binary_op(kk);
    let a = s.subrange(0, i);
    let b = s.subrange(i + 1, j);
    let c = s.subrange(j + 1, len);
    lemma_expr_nodes_outside(s, 0, i);
    lemma_expr_nodes_outside(s, i + 1, j);
    lemma_expr_nodes_outside(s, j + 1, len);
    lemma_expr_nodes_single(s[i]);
    lemma_expr_nodes_single(s[j]);
    assert(s =~= a + seq![s[i]] + b + seq![s[j]] + c);
    lemma_nodes_where_add(a, seq![s[i]], pe);
    lemma_nodes_where_add(a + seq![s[i]], b, pe);
    lemma_nodes_where_add(a + seq![s[i]] + b, seq![s[j]], pe);
    lemma_nodes_where_add(a + seq![s[i]] + b + seq![s[j]], c, pe);
    assert(expr_nodes(s) =~= seq![s[i]->Node_0, s[j]->Node_0]);
    let d = s.subrange(0, k);
    let e = s.subrange(k + 1, len);
    lemma_op_tokens_outside(s, 0, k);
    lemma_op_tokens_outside(s, k + 1, len);
    lemma_op_tokens_single(s[k]);
    assert(s =~= d + seq![s[k]] + e);
    lemma_tokens_where_add(d, seq![s[k]], po);
    lemma_tokens_where_add(d + seq![s[k]], e, po);
    assert(binary_op_tokens(s) =~= seq![s[k]->Token_0]);
}

/// A binary operation with a single child that casts to an expression has a
/// left operand (`BinaryExpr::lhs`), that child, and no right operand
/// (`BinaryExpr::rhs`).
pub proof fn lemma_binary_expr_single_operand(n: SyntaxNode, i: int)
    requires
        n.kind == SyntaxKind::InfixExpr,
        0 <= i < n.children@.len(),
        is_expr_child(n.children@[i]),
        forall|m: int|
            0 <= m < n.children@.len() && m != i ==> !is_expr_child(#[trigger] n.children@[m]),
    ensures
        expr_nodes(n.children@) == seq![n.children@[i]->Node_0],
        expr_nodes(n.children@).len() > 0,
        !(expr_nodes(n.children@).len() > 1),
{
    let s = n.children@;
    let len = s.len() as int;
    let pe = |kk: SyntaxKind| is_expr_kind(kk);
    let a = s.subrange(0, i);
    let c = s.subrange(i + 1, len);
    lemma_expr_nodes_outside(s, 0, i);
    lemma_expr_nodes_outside(s, i + 1, len);
    lemma_expr_nodes_single(s[i]);
    assert(s =~= a + seq![s[i]] + c);
    lemma_nodes_where_add(a, seq![s[i]], pe);
    lemma_nodes_where_add(a + seq![s[i]], c, pe);
    assert(expr_nodes(s) =~= seq![s[i]->Node_0]);
}

} // verus!
