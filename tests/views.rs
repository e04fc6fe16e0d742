use ast::tree::{SyntaxElement, SyntaxKind, SyntaxNode, SyntaxToken};
use ast::views::{Expr, Root, Stmt};

fn token(kind: SyntaxKind, text: &str) -> SyntaxElement {
    SyntaxElement::Token(SyntaxToken::new(kind, text.to_string()))
}

fn node(kind: SyntaxKind, children: Vec<SyntaxElement>) -> SyntaxNode {
    SyntaxNode::new(kind, children)
}

fn child(kind: SyntaxKind, children: Vec<SyntaxElement>) -> SyntaxElement {
    SyntaxElement::Node(node(kind, children))
}

fn literal(text: &str) -> SyntaxElement {
    child(SyntaxKind::Literal, vec![token(SyntaxKind::Number, text)])
}

fn variable_ref(name: &str) -> SyntaxElement {
    child(SyntaxKind::VariableRef, vec![token(SyntaxKind::Ident, name)])
}

fn all_kinds() -> Vec<SyntaxKind> {
    vec![
    SyntaxKind::Whitespace,
    SyntaxKind::FnKw,
    SyntaxKind::LetKw,
    SyntaxKind::Ident,
    SyntaxKind::Number,
    SyntaxKind::Plus,
    SyntaxKind::Minus,
    SyntaxKind::Star,
    SyntaxKind::Slash,
    SyntaxKind::Equals,
    SyntaxKind::LParen,
    SyntaxKind::RParen,
    SyntaxKind::LBrace,
    SyntaxKind::RBrace,
    SyntaxKind::Comment,
    SyntaxKind::Error,
    SyntaxKind::Root,
    SyntaxKind::InfixExpr,
    SyntaxKind::Literal,
    SyntaxKind::ParenExpr,
    SyntaxKind::PrefixExpr,
    SyntaxKind::VariableDef,
    SyntaxKind::VariableRef,
    ]
}

#[test]
fn unrecognized_kinds_do_not_cast() {
    let expr_kinds = [
        SyntaxKind::InfixExpr,
        SyntaxKind::Literal,
        SyntaxKind::ParenExpr,
        SyntaxKind::PrefixExpr,
        SyntaxKind::VariableRef,
    ];
    for kind in all_kinds() {
        let n = node(kind, vec![]);
        let is_expr = expr_kinds.contains(&kind);
        assert_eq!(Expr::cast(&n).is_some(), is_expr);
        assert_eq!(
            Stmt::cast(&n).is_some(),
            is_expr || kind == SyntaxKind::VariableDef
        );
        assert_eq!(Root::cast(&n).is_some(), kind == SyntaxKind::Root);
    }
}

#[test]
fn expr_cast_picks_the_matching_variant() {
    let n = node(SyntaxKind::InfixExpr, vec![]);
    assert!(matches!(Expr::cast(&n), Some(Expr::BinaryExpr(_))));
    let n = node(SyntaxKind::Literal, vec![]);
    assert!(matches!(Expr::cast(&n), Some(Expr::Literal(_))));
    let n = node(SyntaxKind::ParenExpr, vec![]);
    assert!(matches!(Expr::cast(&n), Some(Expr::ParenExpr(_))));
    let n = node(SyntaxKind::PrefixExpr, vec![]);
    assert!(matches!(Expr::cast(&n), Some(Expr::UnaryExpr(_))));
    let n = node(SyntaxKind::VariableRef, vec![]);
    assert!(matches!(Expr::cast(&n), Some(Expr::VariableRef(_))));
}

#[test]
fn stmt_cast_wraps_expressions() {
    let n = node(SyntaxKind::VariableDef, vec![]);
    assert!(matches!(Stmt::cast(&n), Some(Stmt::VariableDef(_))));
    let n = node(SyntaxKind::PrefixExpr, vec![]);
    assert!(matches!(Stmt::cast(&n), Some(Stmt::Expr(Expr::UnaryExpr(_)))));
    let n = node(SyntaxKind::Error, vec![]);
    assert!(Stmt::cast(&n).is_none());
}

#[test]
fn binary_expr_parts_keep_document_order() {
    // a * (1 + 2)
    let n = node(
        SyntaxKind::InfixExpr,
        vec![
            variable_ref("a"),
            token(SyntaxKind::Whitespace, " "),
            token(SyntaxKind::Star, "*"),
            token(SyntaxKind::Whitespace, " "),
            child(
                SyntaxKind::ParenExpr,
                vec![
                    token(SyntaxKind::LParen, "("),
                    child(
                        SyntaxKind::InfixExpr,
                        vec![literal("1"), token(SyntaxKind::Plus, "+"), literal("2")],
                    ),
                    token(SyntaxKind::RParen, ")"),
                ],
            ),
        ],
    );
    let b = match Expr::cast(&n) {
        Some(Expr::BinaryExpr(b)) => b,
        _ => panic!("not a binary expression"),
    };
    match b.lhs() {
        Some(Expr::VariableRef(v)) => assert_eq!(v.name(), "a"),
        _ => panic!("left operand is not a variable reference"),
    }
    let op = b.op().expect("operator");
    assert_eq!(op.kind(), SyntaxKind::Star);
    assert_eq!(op.text(), "*");
    let inner = match b.rhs() {
        Some(Expr::ParenExpr(p)) => p.expr(),
        _ => panic!("right operand is not parenthesized"),
    };
    match inner {
        Some(Expr::BinaryExpr(sum)) => {
            assert!(matches!(sum.lhs(), Some(Expr::Literal(l)) if l.parse() == 1));
            assert!(matches!(sum.rhs(), Some(Expr::Literal(l)) if l.parse() == 2));
            assert_eq!(sum.op().map(|t| t.kind()), Some(SyntaxKind::Plus));
        }
        _ => panic!("inner expression is not binary"),
    }
}

#[test]
fn binary_expr_operands_with_swapped_shapes() {
    let n = node(
        SyntaxKind::InfixExpr,
        vec![literal("5"), token(SyntaxKind::Minus, "-"), variable_ref("x")],
    );
    let b = match Expr::cast(&n) {
        Some(Expr::BinaryExpr(b)) => b,
        _ => panic!("not a binary expression"),
    };
    assert!(matches!(b.lhs(), Some(Expr::Literal(l)) if l.parse() == 5));
    assert!(matches!(b.rhs(), Some(Expr::VariableRef(v)) if v.name() == "x"));
    assert_eq!(b.op().map(|t| t.kind()), Some(SyntaxKind::Minus));
}

#[test]
fn binary_expr_with_one_operand_has_no_rhs() {
    let n = node(
        SyntaxKind::InfixExpr,
        vec![literal("1"), token(SyntaxKind::Plus, "+")],
    );
    let b = match Expr::cast(&n) {
        Some(Expr::BinaryExpr(b)) => b,
        _ => panic!("not a binary expression"),
    };
    assert!(matches!(b.lhs(), Some(Expr::Literal(l)) if l.parse() == 1));
    assert!(b.rhs().is_none());
}

#[test]
fn binary_expr_without_operator() {
    let n = node(SyntaxKind::InfixExpr, vec![literal("1"), literal("2")]);
    let b = match Expr::cast(&n) {
        Some(Expr::BinaryExpr(b)) => b,
        _ => panic!("not a binary expression"),
    };
    assert!(b.op().is_none());
    assert!(b.rhs().is_some());
}

#[test]
fn literal_parses_42() {
    let n = node(SyntaxKind::Literal, vec![token(SyntaxKind::Number, "42")]);
    match Expr::cast(&n) {
        Some(Expr::Literal(l)) => assert_eq!(l.parse(), 42),
        _ => panic!("not a literal"),
    }
}

#[test]
fn literal_parses_largest_u64() {
    let n = node(
        SyntaxKind::Literal,
        vec![token(SyntaxKind::Number, "18446744073709551615")],
    );
    match Expr::cast(&n) {
        Some(Expr::Literal(l)) => assert_eq!(l.parse(), u64::MAX),
        _ => panic!("not a literal"),
    }
}

#[test]
fn root_stmts_skip_unrecognized_children() {
    let n = node(
        SyntaxKind::Root,
        vec![
            child(
                SyntaxKind::VariableDef,
                vec![
                    token(SyntaxKind::LetKw, "let"),
                    token(SyntaxKind::Whitespace, " "),
                    token(SyntaxKind::Ident, "a"),
                    token(SyntaxKind::Equals, "="),
                    literal("10"),
                ],
            ),
            child(
                SyntaxKind::InfixExpr,
                vec![variable_ref("a"), token(SyntaxKind::Slash, "/"), literal("2")],
            ),
            child(SyntaxKind::Error, vec![token(SyntaxKind::RBrace, "}")]),
        ],
    );
    let root = Root::cast(&n).expect("root");
    let stmts = root.stmts();
    assert_eq!(stmts.len(), 2);
    match stmts[0] {
        Stmt::VariableDef(d) => {
            assert_eq!(d.name().map(|t| t.text()), Some("a"));
            assert!(matches!(d.value(), Some(Expr::Literal(l)) if l.parse() == 10));
        }
        _ => panic!("first statement is not a definition"),
    }
    assert!(matches!(stmts[1], Stmt::Expr(Expr::BinaryExpr(_))));
    // a second call scans again and gives the same statements
    assert_eq!(root.stmts().len(), 2);
}

#[test]
fn root_cast_rejects_other_kinds() {
    let n = node(SyntaxKind::VariableDef, vec![]);
    assert!(Root::cast(&n).is_none());
    let n = node(SyntaxKind::Root, vec![]);
    assert!(Root::cast(&n).expect("root").stmts().is_empty());
}

#[test]
fn variable_def_without_parts() {
    let n = node(
        SyntaxKind::VariableDef,
        vec![token(SyntaxKind::LetKw, "let"), token(SyntaxKind::Equals, "=")],
    );
    match Stmt::cast(&n) {
        Some(Stmt::VariableDef(d)) => {
            assert!(d.name().is_none());
            assert!(d.value().is_none());
        }
        _ => panic!("not a definition"),
    }
}

#[test]
fn unary_expr_parts() {
    let n = node(
        SyntaxKind::PrefixExpr,
        vec![token(SyntaxKind::Minus, "-"), variable_ref("y")],
    );
    match Expr::cast(&n) {
        Some(Expr::UnaryExpr(u)) => {
            assert_eq!(u.op().map(|t| t.text()), Some("-"));
            assert!(matches!(u.expr(), Some(Expr::VariableRef(v)) if v.name() == "y"));
        }
        _ => panic!("not a unary expression"),
    }
    let n = node(SyntaxKind::PrefixExpr, vec![token(SyntaxKind::Plus, "+")]);
    match Expr::cast(&n) {
        Some(Expr::UnaryExpr(u)) => {
            assert!(u.op().is_none());
            assert!(u.expr().is_none());
        }
        _ => panic!("not a unary expression"),
    }
}

#[test]
fn paren_expr_hides_parentheses() {
    let n = node(
        SyntaxKind::ParenExpr,
        vec![
            token(SyntaxKind::LParen, "("),
            literal("7"),
            token(SyntaxKind::RParen, ")"),
        ],
    );
    match Expr::cast(&n) {
        Some(Expr::ParenExpr(p)) => {
            assert!(matches!(p.expr(), Some(Expr::Literal(l)) if l.parse() == 7));
        }
        _ => panic!("not a parenthesized expression"),
    }
}

#[test]
fn variable_ref_name_is_first_token_text() {
    let n = node(
        SyntaxKind::VariableRef,
        vec![token(SyntaxKind::Ident, "counter"), token(SyntaxKind::Whitespace, " ")],
    );
    match Expr::cast(&n) {
        Some(Expr::VariableRef(v)) => assert_eq!(v.name(), "counter"),
        _ => panic!("not a variable reference"),
    }
}

#[test]
fn first_token_descends_into_first_child() {
    let n = node(
        SyntaxKind::InfixExpr,
        vec![literal("3"), token(SyntaxKind::Plus, "+"), literal("4")],
    );
    assert_eq!(n.first_token().map(|t| t.text()), Some("3"));
    assert!(node(SyntaxKind::Root, vec![]).first_token().is_none());
}

#[test]
fn cast_and_syntax_round_trip() {
    let n = node(SyntaxKind::InfixExpr, vec![literal("1"), token(SyntaxKind::Plus, "+")]);
    let e = Expr::cast(&n).expect("expression");
    assert!(std::ptr::eq(e.syntax(), &n));
    let s = Stmt::cast(&n).expect("statement");
    assert!(std::ptr::eq(s.syntax(), &n));
    match e {
        Expr::BinaryExpr(b) => assert!(std::ptr::eq(b.syntax(), &n)),
        _ => panic!("not a binary expression"),
    }
    let r = node(SyntaxKind::Root, vec![]);
    assert!(std::ptr::eq(Root::cast(&r).expect("root").syntax(), &r));
}

#[test]
fn accessor_called_twice_gives_the_same_view() {
    let n = node(
        SyntaxKind::InfixExpr,
        vec![variable_ref("p"), token(SyntaxKind::Plus, "+"), literal("9")],
    );
    let b = match Expr::cast(&n) {
        Some(Expr::BinaryExpr(b)) => b,
        _ => panic!("not a binary expression"),
    };
    let first = b.lhs().expect("lhs");
    let second = b.lhs().expect("lhs");
    assert!(std::ptr::eq(first.syntax(), second.syntax()));
    assert!(matches!((first, second), (Expr::VariableRef(_), Expr::VariableRef(_))));
    let op1 = b.op().expect("op");
    let op2 = b.op().expect("op");
    assert!(std::ptr::eq(op1, op2));
}

#[test]
fn literal_parses_leading_plus_and_zeros() {
    let n = node(SyntaxKind::Literal, vec![token(SyntaxKind::Number, "+007")]);
    match Expr::cast(&n) {
        Some(Expr::Literal(l)) => assert_eq!(l.parse(), 7),
        _ => panic!("not a literal"),
    }
}
