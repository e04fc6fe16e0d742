//! Typed views over a kind-tagged syntax tree.
//!
//! `tree` holds the generic tree: nodes and tokens tagged with a `SyntaxKind`.
//! `views` holds the typed projections (`Root`, `Stmt`, `Expr` and the view of
//! each expression shape) and the classifiers that produce them. `number` says
//! which token texts read as a `u64` and what value they read as. `laws`
//! states and proves how the views' parts relate to the children of a node.
pub mod laws;
pub mod number;
pub mod tree;
pub mod views;
