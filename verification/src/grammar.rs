//! What the syntax tree means: which node shapes the transform accepts, and
//! the abstract syntax that each accepted shape stands for.
//!
//! The functions here are specifications. The executable transform in
//! [`crate::parse`] is proved to compute them.

use crate::ast::{
    CompoundTypeView, ExprView, LiteralView, PrimitiveType, StatementView, TypeView, VariableView,
};
use crate::cst::{NodeView, Rule};
use vstd::prelude::*;

verus! {

/// The keyword type that `text` spells, if it is one of the reserved words.
pub open spec fn keyword_type(text: Seq<char>) -> Option<PrimitiveType> {
    if text == "integer"@ {
        Some(PrimitiveType::Integer)
    } else if text == "floating"@ {
        Some(PrimitiveType::Floating)
    } else if text == "boolean"@ {
        Some(PrimitiveType::Boolean)
    } else if text == "none"@ {
        Some(PrimitiveType::NoneType)
    } else {
        None
    }
}

/// Whether `n` has the shape of a type.
///
/// A bare name is a type. An annotation wraps exactly one type. A type rule
/// starts with a name; unless that name is a keyword, an argument list may
/// follow, which then holds at least one type.
pub open spec fn is_type_node(n: NodeView) -> bool
    decreases n,
{
    let c = n.children;
    match n.rule {
        Rule::Variable => true,
        Rule::TypeAnnotation => c.len() == 1 && is_type_node(c[0]),
        Rule::Type => {
            &&& c.len() >= 1
            &&& keyword_type(c[0].text) is None && c.len() >= 2 ==> {
                let args = c[1].children;
                &&& args.len() >= 1
                &&& forall|i: int| 0 <= i < args.len() ==> is_type_node(#[trigger] args[i])
            }
        },
        _ => false,
    }
}

/// The type that a node of type shape stands for.
pub open spec fn type_of_node(n: NodeView) -> TypeView
    decreases n,
{
    let c = n.children;
    match n.rule {
        Rule::Variable => TypeView::BaseType(n.text),
        Rule::TypeAnnotation => if c.len() >= 1 {
            type_of_node(c[0])
        } else {
            arbitrary()
        },
        Rule::Type => if c.len() >= 1 {
            match keyword_type(c[0].text) {
                Some(p) => TypeView::Primitive(p),
                None => {
                    let base = TypeView::BaseType(c[0].text);
                    if c.len() >= 2 {
                        let args = c[1].children;
                        TypeView::CompoundType(
                            Box::new(
                                CompoundTypeView {
                                    base,
                                    subtypes: Seq::new(
                                        args.len(),
                                        |i: int|
                                            if 0 <= i < args.len() {
                                                type_of_node(args[i])
                                            } else {
                                                arbitrary()
                                            },
                                    ),
                                },
                            ),
                        )
                    } else {
                        base
                    }
                },
            }
        } else {
            arbitrary()
        },
        _ => arbitrary(),
    }
}

/// Whether a node labelled `next` may stand directly after one labelled
/// `prev`: after an operand stands an infix operator, after an operator
/// anything else.
pub open spec fn may_follow(prev: Rule, next: Rule) -> bool {
    next.infix_op() is Some <==> !prev.is_operator()
}

/// Whether operators and operands alternate properly in `s`: the sequence
/// is not empty, does not start with an infix operator, does not end with
/// an operator, and each node may follow the one before it.
pub open spec fn well_shaped(s: Seq<NodeView>) -> bool {
    &&& s.len() > 0
    &&& s[0].rule.infix_op() is None
    &&& !s.last().rule.is_operator()
    &&& forall|i: int, j: int|
        0 <= i && j == i + 1 && j < s.len() ==> may_follow(
            (#[trigger] s[i]).rule,
            (#[trigger] s[j]).rule,
        )
}

/// Whether the sequence `s` has the shape of an expression: operators and
/// operands alternate properly, and each operand is a primary.
pub open spec fn is_expr(s: Seq<NodeView>) -> bool
    decreases s,
{
    &&& well_shaped(s)
    &&& forall|i: int|
        0 <= i < s.len() && !(#[trigger] s[i]).rule.is_operator() ==> is_primary_node(s[i])
}

/// Whether `n` has the shape of a primary, an expression without operators
/// at its top: a literal, a name, a wrapped expression, or a block that
/// holds statements and then one primary.
pub open spec fn is_primary_node(n: NodeView) -> bool
    decreases n,
{
    let c = n.children;
    match n.rule {
        Rule::IntegerLiteral | Rule::FloatLiteral | Rule::Variable => true,
        Rule::Expr | Rule::BinExp => is_expr(c),
        Rule::ExpBlock => {
            &&& c.len() >= 1
            &&& is_primary_node(c.last())
            &&& forall|i: int| 0 <= i < c.len() - 1 ==> is_statement_node(#[trigger] c[i])
        },
        _ => false,
    }
}

/// Whether `n` has the shape of a statement.
///
/// A statement rule wraps exactly one statement. A binding holds a name,
/// then optionally a type annotation, then optionally a value: one to three
/// children, and with two the second is an annotation or an expression.
pub open spec fn is_statement_node(n: NodeView) -> bool
    decreases n,
{
    let c = n.children;
    match n.rule {
        Rule::Statement => c.len() == 1 && is_statement_node(c[0]),
        Rule::LetStatement => {
            ||| c.len() == 1
            ||| c.len() == 2 && c[1].rule == Rule::TypeAnnotation && is_type_node(c[1])
            ||| c.len() == 2 && c[1].rule == Rule::Expr && is_primary_node(c[1])
            ||| c.len() == 3 && is_type_node(c[1]) && is_primary_node(c[2])
        },
        _ => false,
    }
}

/// Whether the infix operator at `i` is the one applied last in `s`: no
/// operator in `s` binds weaker, and of those that bind equally it is the
/// rightmost.
pub open spec fn is_root(s: Seq<NodeView>, i: int) -> bool {
    &&& 0 <= i < s.len()
    &&& s[i].rule.infix_op() matches Some(op)
    &&& forall|j: int|
        0 <= j < i ==> ((#[trigger] s[j]).rule.infix_op() matches Some(left)
            ==> left.binding_power() >= op.binding_power())
    &&& forall|j: int|
        i < j < s.len() ==> ((#[trigger] s[j]).rule.infix_op() matches Some(right)
            ==> right.binding_power() > op.binding_power())
}

/// The position of the operator applied last in `s`, if `s` holds an infix
/// operator.
pub open spec fn root(s: Seq<NodeView>) -> Option<int> {
    if exists|i: int| is_root(s, i) {
        Some(choose|i: int| is_root(s, i))
    } else {
        None
    }
}

/// The operator applied last is unique: where `i` is one, it is the root.
pub proof fn lemma_root_is(s: Seq<NodeView>, i: int)
    requires
        is_root(s, i),
    ensures
        root(s) == Some(i),
{
}

/// A sequence without infix operators has no root.
pub proof fn lemma_no_root(s: Seq<NodeView>)
    requires
        forall|j: int| 0 <= j < s.len() ==> (#[trigger] s[j]).rule.infix_op() is None,
    ensures
        root(s) is None,
{
}

/// The expression that the sequence `s` stands for.
///
/// With an infix operator in `s`, the operator applied last joins what
/// stands left of it with what stands right of it. Without one, a leading
/// prefix operator negates the rest, and a single node is a primary.
pub open spec fn expr_of(s: Seq<NodeView>) -> ExprView
    decreases s,
{
    if s.len() == 0 {
        arbitrary()
    } else {
        match root(s) {
            Some(i) => ExprView::BinOp {
                left: Box::new(expr_of(s.take(i))),
                op: s[i].rule.infix_op().unwrap(),
                right: Box::new(expr_of(s.skip(i + 1))),
            },
            None => if s[0].rule.is_prefix() && s.len() > 1 {
                ExprView::UnaryMinus(Box::new(expr_of(s.skip(1))))
            } else {
                primary_of(s[0])
            },
        }
    }
}

/// The expression that a node of primary shape stands for.
pub open spec fn primary_of(n: NodeView) -> ExprView
    decreases n,
{
    let c = n.children;
    match n.rule {
        Rule::IntegerLiteral => ExprView::Literal(LiteralView::Integer(n.text)),
        Rule::FloatLiteral => ExprView::Literal(LiteralView::Floating(n.text)),
        Rule::Variable => ExprView::Variable(
            VariableView { name: n.text, var_type: TypeView::Unknown },
        ),
        Rule::Expr | Rule::BinExp => expr_of(c),
        Rule::ExpBlock => if c.len() >= 1 {
            ExprView::ExprBlock(
                Seq::new(
                    (c.len() - 1) as nat,
                    |i: int|
                        if 0 <= i < c.len() - 1 {
                            statement_of_node(c[i])
                        } else {
                            arbitrary()
                        },
                ),
                Box::new(primary_of(c.last())),
            )
        } else {
            arbitrary()
        },
        _ => arbitrary(),
    }
}

/// The annotation of a binding with children `c`, where it has one.
pub open spec fn let_annotation(c: Seq<NodeView>) -> Option<NodeView> {
    if c.len() == 3 || (c.len() == 2 && c[1].rule == Rule::TypeAnnotation) {
        Some(c[1])
    } else {
        None
    }
}

/// The initialiser of a binding with children `c`, where it has one.
pub open spec fn let_initialiser(c: Seq<NodeView>) -> Option<NodeView> {
    if c.len() == 3 {
        Some(c[2])
    } else if c.len() == 2 && c[1].rule != Rule::TypeAnnotation {
        Some(c[1])
    } else {
        None
    }
}

/// The statement that a node of statement shape stands for.
///
/// A binding takes its name from its first child. Without an annotation
/// its type is the `none` keyword type, whatever the value; without an
/// initialiser its value is the `none` literal.
pub open spec fn statement_of_node(n: NodeView) -> StatementView
    decreases n,
{
    let c = n.children;
    match n.rule {
        Rule::Statement => if c.len() >= 1 {
            statement_of_node(c[0])
        } else {
            arbitrary()
        },
        Rule::LetStatement => if 1 <= c.len() <= 3 {
            StatementView::LetStatement {
                name: c[0].text,
                var_type: match let_annotation(c) {
                    Some(t) => type_of_node(t),
                    None => TypeView::Primitive(PrimitiveType::NoneType),
                },
                value: match let_initialiser(c) {
                    Some(v) => primary_of(v),
                    None => ExprView::Literal(LiteralView::NoneValue),
                },
            }
        } else {
            arbitrary()
        },
        _ => arbitrary(),
    }
}

/// Whether `s` is accepted where a type is expected: one node of type
/// shape.
pub open spec fn is_type(s: Seq<NodeView>) -> bool {
    s.len() == 1 && is_type_node(s[0])
}

/// The type that an accepted sequence stands for.
pub open spec fn type_of(s: Seq<NodeView>) -> TypeView {
    type_of_node(s[0])
}

/// Whether `s` is accepted where a statement is expected: one node of
/// statement shape.
pub open spec fn is_statement(s: Seq<NodeView>) -> bool {
    s.len() == 1 && is_statement_node(s[0])
}

/// The statement that an accepted sequence stands for.
pub open spec fn statement_of(s: Seq<NodeView>) -> StatementView {
    statement_of_node(s[0])
}

} // verus!
