//! Builds the typed syntax tree of a small expression language from the
//! concrete syntax tree that a grammar engine hands over.
//!
//! The input is a tree of [`Node`]s, each labelled with the [`Rule`] that
//! matched. [`parse_expr`], [`parse_statement`] and [`parse_type`] turn a
//! sequence of sibling nodes into an [`Expr`], a [`Statement`] or a
//! [`Type`]. Each is defined on the shapes that the grammar produces;
//! [`has_expr_shape`], [`has_statement_shape`] and [`has_type_shape`]
//! decide whether a sequence has such a shape.
//!
//! - [`cst`] and [`ast`] hold the two kinds of tree and their views.
//! - [`operators`] holds the operator table.
//! - [`grammar`] says which shapes are accepted and what each stands for.
//! - [`parse`] and [`shape`] hold the executable functions, proved against
//!   [`grammar`].
//! - [`laws`] holds theorems on precedence, associativity and the shape of
//!   results.

pub mod ast;
pub mod cst;
pub mod grammar;
pub mod laws;
pub mod operators;
pub mod parse;
pub mod shape;

pub use ast::{
    BinaryOp, CompoundType, Expr, Literal, PrimitiveType, Statement, Type, Variable,
};
pub use cst::{Node, Rule};
pub use parse::{parse_expr, parse_statement, parse_type};
pub use shape::{has_expr_shape, has_statement_shape, has_type_shape};
