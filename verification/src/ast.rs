//! The abstract syntax tree and the mathematical values it stands for.
//!
//! Every tree type has a view: the same shape with `Seq<char>` for text and
//! `Seq` for ordered children. Contracts are stated over the views.

use vstd::prelude::*;

verus! {

/// The reserved keyword types.
#[derive(Debug, Clone, Copy, PartialEq, Eq, Structural)]
pub enum PrimitiveType {
    Integer,
    Floating,
    Boolean,
    NoneType,
}

/// The infix operators.
#[derive(Debug, Clone, Copy, PartialEq, Eq, Structural)]
pub enum BinaryOp {
    Add,
    Subtract,
    Multiply,
    Divide,
    Modulo,
}

/// A literal, kept as the exact source text that was matched.
#[derive(Debug, PartialEq, Eq)]
pub enum Literal {
    Integer(String),
    Floating(String),
    String(String),
    Boolean(String),
    NoneValue(),
}

/// A type as written in the source.
#[derive(Debug, PartialEq, Eq)]
pub enum Type {
    Primitive(PrimitiveType),
    /// A bare name that is not a reserved keyword.
    BaseType(String),
    CompoundType(Box<CompoundType>),
    /// Not resolved yet; distinct from the `none` keyword type.
    Unknown,
}

/// A base type applied to an ordered list of type arguments.
#[derive(Debug, PartialEq, Eq)]
pub struct CompoundType {
    pub base: Type,
    pub subtypes: Vec<Type>,
}

/// A name with the type it is known to have.
#[derive(Debug, PartialEq, Eq)]
pub struct Variable {
    pub name: String,
    pub var_type: Type,
}

/// An expression.
#[derive(Debug, PartialEq, Eq)]
pub enum Expr {
    Literal(Literal),
    UnaryMinus(Box<Expr>),
    BinOp { left: Box<Expr>, op: BinaryOp, right: Box<Expr> },
    /// Leading statements in source order, then the expression that is the
    /// block's value.
    ExprBlock(Vec<Statement>, Box<Expr>),
    Variable(Variable),
}

/// A statement.
#[derive(Debug, PartialEq, Eq)]
pub enum Statement {
    /// A binding. All three fields are always present: a binding without
    /// an annotation has the `none` keyword type, one without an initialiser
    /// has the `none` literal.
    LetStatement { name: String, var_type: Type, value: Expr },
    Nop,
}

/// What a [`Literal`] stands for.
pub enum LiteralView {
    Integer(Seq<char>),
    Floating(Seq<char>),
    String(Seq<char>),
    Boolean(Seq<char>),
    NoneValue,
}

/// What a [`Type`] stands for.
pub enum TypeView {
    Primitive(PrimitiveType),
    BaseType(Seq<char>),
    CompoundType(Box<CompoundTypeView>),
    Unknown,
}

/// What a [`CompoundType`] stands for.
pub struct CompoundTypeView {
    pub base: TypeView,
    pub subtypes: Seq<TypeView>,
}

/// What a [`Variable`] stands for.
pub struct VariableView {
    pub name: Seq<char>,
    pub var_type: TypeView,
}

/// What an [`Expr`] stands for.
pub enum ExprView {
    Literal(LiteralView),
    UnaryMinus(Box<ExprView>),
    BinOp { left: Box<ExprView>, op: BinaryOp, right: Box<ExprView> },
    ExprBlock(Seq<StatementView>, Box<ExprView>),
    Variable(VariableView),
}

/// What a [`Statement`] stands for.
pub enum StatementView {
    LetStatement { name: Seq<char>, var_type: TypeView, value: ExprView },
    Nop,
}

impl TypeView {
    /// Whether the type is fully resolved and every compound type in it
    /// applies a bare name to at least one argument.
    pub open spec fn well_formed(self) -> bool
        decreases self,
    {
        match self {
            TypeView::Primitive(_) | TypeView::BaseType(_) => true,
            TypeView::CompoundType(c) => {
                &&& c.base is BaseType
                &&& c.subtypes.len() >= 1
                &&& forall|i: int|
                    0 <= i < c.subtypes.len() ==> (#[trigger] c.subtypes[i]).well_formed()
            },
            TypeView::Unknown => false,
        }
    }
}

/// The view of a type, by recursion on its structure.
pub open spec fn type_view(t: Type) -> TypeView
    decreases t,
{
    match t {
        Type::Primitive(p) => TypeView::Primitive(p),
        Type::BaseType(name) => TypeView::BaseType(name@),
        Type::CompoundType(c) => TypeView::CompoundType(
            Box::new(
                CompoundTypeView {
                    base: type_view(c.base),
                    subtypes: Seq::new(
                        c.subtypes@.len(),
                        |i: int|
                            if 0 <= i < c.subtypes@.len() {
                                type_view(c.subtypes@[i])
                            } else {
                                arbitrary()
                            },
                    ),
                },
            ),
        ),
        Type::Unknown => TypeView::Unknown,
    }
}

/// The view of an expression, by recursion on its structure.
pub open spec fn expr_view(e: Expr) -> ExprView
    decreases e,
{
    match e {
        Expr::Literal(l) => ExprView::Literal(l@),
        Expr::UnaryMinus(operand) => ExprView::UnaryMinus(Box::new(expr_view(*operand))),
        Expr::BinOp { left, op, right } => ExprView::BinOp {
            left: Box::new(expr_view(*left)),
            op,
            right: Box::new(expr_view(*right)),
        },
        Expr::ExprBlock(statements, tail) => ExprView::ExprBlock(
            Seq::new(
                statements@.len(),
                |i: int|
                    if 0 <= i < statements@.len() {
                        statement_view(statements@[i])
                    } else {
                        arbitrary()
                    },
            ),
            Box::new(expr_view(*tail)),
        ),
        Expr::Variable(v) => ExprView::Variable(v@),
    }
}

/// The view of a statement, by recursion on its structure.
pub open spec fn statement_view(s: Statement) -> StatementView
    decreases s,
{
    match s {
        Statement::LetStatement { name, var_type, value } => StatementView::LetStatement {
            name: name@,
            var_type: type_view(var_type),
            value: expr_view(value),
        },
        Statement::Nop => StatementView::Nop,
    }
}

impl View for Literal {
    type V = LiteralView;

    open spec fn view(&self) -> LiteralView {
        match self {
            Literal::Integer(text) => LiteralView::Integer(text@),
            Literal::Floating(text) => LiteralView::Floating(text@),
            Literal::String(text) => LiteralView::String(text@),
            Literal::Boolean(text) => LiteralView::Boolean(text@),
            Literal::NoneValue() => LiteralView::NoneValue,
        }
    }
}

impl View for Type {
    type V = TypeView;

    open spec fn view(&self) -> TypeView {
        type_view(*self)
    }
}

impl View for CompoundType {
    type V = CompoundTypeView;

    open spec fn view(&self) -> CompoundTypeView {
        CompoundTypeView {
            base: self.base@,
            subtypes: Seq::new(self.subtypes@.len(), |i: int| self.subtypes@[i]@),
        }
    }
}

impl View for Variable {
    type V = VariableView;

    open spec fn view(&self) -> VariableView {
        VariableView { name: self.name@, var_type: self.var_type@ }
    }
}

impl View for Expr {
    type V = ExprView;

    open spec fn view(&self) -> ExprView {
        expr_view(*self)
    }
}

impl View for Statement {
    type V = StatementView;

    open spec fn view(&self) -> StatementView {
        statement_view(*self)
    }
}

} // verus!
