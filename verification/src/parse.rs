//! The transform from concrete to abstract syntax.
//!
//! Each function is defined on the shapes that [`crate::grammar`] accepts
//! and returns the tree that [`crate::grammar`] says the shape stands for.
//!
//! Expressions are built by precedence climbing over the table of
//! [`crate::operators`]. The result is the one that pest's `PrattParser`
//! gives for the same sequence with the same table; the tests compare the
//! two.

use crate::ast::{
    CompoundType, Expr, Literal, PrimitiveType, Statement, Type, TypeView, Variable,
};
use crate::cst::{Node, Rule};
use crate::grammar::{
    expr_of, is_expr, is_primary_node, is_statement, is_statement_node, is_type, is_type_node,
    keyword_type, lemma_root_is, may_follow, primary_of, statement_of, statement_of_node,
    type_of, type_of_node,
};
use vstd::prelude::*;

verus! {

/// Recognises the reserved type keywords by exact match.
pub(crate) fn keyword(text: &String) -> (k: Option<PrimitiveType>)
    ensures
        k == keyword_type(text@),
{
    if *text == "integer".to_owned() {
        Some(PrimitiveType::Integer)
    } else if *text == "floating".to_owned() {
        Some(PrimitiveType::Floating)
    } else if *text == "boolean".to_owned() {
        Some(PrimitiveType::Boolean)
    } else if *text == "none".to_owned() {
        Some(PrimitiveType::NoneType)
    } else {
        None
    }
}

/// Builds the type that a node of type shape stands for.
#[verifier::loop_isolation(false)]
fn parse_type_node(n: &Node) -> (t: Type)
    requires
        is_type_node(n@),
    ensures
        t@ == type_of_node(n@),
    decreases n,
{
    match n.rule {
        Rule::Variable => Type::BaseType(n.text.clone()),
        Rule::TypeAnnotation => parse_type_node(&n.children[0]),
        Rule::Type => {
            let head = &n.children[0];
            proof {
                head.lemma_view();
            }
            match keyword(&head.text) {
                Some(p) => Type::Primitive(p),
                None => {
                    let base = Type::BaseType(head.text.clone());
                    assert(base@ == TypeView::BaseType(head.text@));
                    if n.children.len() >= 2 {
                        let args = &n.children[1].children;
                        proof {
                            n.children[1].lemma_view();
                        }
                        let mut subtypes: Vec<Type> = Vec::new();
                        let mut i: usize = 0;
                        while i < args.len()
                            invariant
                                i <= args.len(),
                                subtypes@.len() == i,
                                forall|j: int|
                                    0 <= j < i ==> (#[trigger] subtypes@[j])@ == type_of_node(
                                        args[j]@,
                                    ),
                            decreases args.len() - i,
                        {
                            assert(is_type_node(n@.children[1].children[i as int]));
                            let sub = parse_type_node(&args[i]);
                            subtypes.push(sub);
                            i += 1;
                        }
                        let t = Type::CompoundType(Box::new(CompoundType { base, subtypes }));
                        assert(t@->CompoundType_0.subtypes =~= type_of_node(
                            n@,
                        )->CompoundType_0.subtypes);
                        t
                    } else {
                        base
                    }
                },
            }
        },
        _ => unreached(),
    }
}

/// Builds the statement that a node of statement shape stands for.
fn parse_statement_node(n: &Node) -> (s: Statement)
    requires
        is_statement_node(n@),
    ensures
        s@ == statement_of_node(n@),
    decreases n, 0nat, 0nat,
{
    match n.rule {
        Rule::Statement => parse_statement_node(&n.children[0]),
        Rule::LetStatement => {
            let c = &n.children;
            proof {
                c[0].lemma_view();
                if c.len() >= 2 {
                    c[1].lemma_view();
                }
            }
            let name = c[0].text.clone();
            let (var_type, value) = match c.len() {
                1 => (
                    Type::Primitive(PrimitiveType::NoneType),
                    Expr::Literal(Literal::NoneValue()),
                ),
                2 => match c[1].rule {
                    Rule::TypeAnnotation => (
                        parse_type_node(&c[1]),
                        Expr::Literal(Literal::NoneValue()),
                    ),
                    Rule::Expr => (
                        Type::Primitive(PrimitiveType::NoneType),
                        parse_primary(&c[1]),
                    ),
                    _ => unreached(),
                },
                3 => (parse_type_node(&c[1]), parse_primary(&c[2])),
                _ => unreached(),
            };
            Statement::LetStatement { name, var_type, value }
        },
        _ => unreached(),
    }
}

/// Builds the expression that a node of primary shape stands for.
#[verifier::loop_isolation(false)]
fn parse_primary(n: &Node) -> (e: Expr)
    requires
        is_primary_node(n@),
    ensures
        e@ == primary_of(n@),
    decreases n, 0nat, 0nat,
{
    match n.rule {
        Rule::IntegerLiteral => Expr::Literal(Literal::Integer(n.text.clone())),
        Rule::FloatLiteral => Expr::Literal(Literal::Floating(n.text.clone())),
        Rule::Variable => Expr::Variable(
            Variable { name: n.text.clone(), var_type: Type::Unknown },
        ),
        Rule::Expr | Rule::BinExp => {
            proof {
                n.lemma_view();
            }
            parse_expr(&n.children)
        },
        Rule::ExpBlock => {
            let c = &n.children;
            let last = c.len() - 1;
            let mut statements: Vec<Statement> = Vec::new();
            let mut i: usize = 0;
            while i < last
                invariant
                    i <= last,
                    statements@.len() == i,
                    forall|j: int|
                        0 <= j < i ==> (#[trigger] statements@[j])@ == statement_of_node(c[j]@),
                decreases last - i,
            {
                assert(is_statement_node(n@.children[i as int]));
                let statement = parse_statement_node(&c[i]);
                statements.push(statement);
                i += 1;
            }
            let tail = parse_primary(&c[last]);
            let e = Expr::ExprBlock(statements, Box::new(tail));
            assert(e@->ExprBlock_0 =~= primary_of(n@)->ExprBlock_0);
            e
        },
        _ => unreached(),
    }
}

/// Builds the operand that starts at `start`: prefix operators, then one
/// primary. Returns it with the position after it.
fn parse_operand(pairs: &Vec<Node>, start: usize) -> (r: (Expr, usize))
    requires
        is_expr(pairs.deep_view()),
        start < pairs.len(),
        pairs[start as int].rule.infix_op() is None,
    ensures
        start < r.1 <= pairs.len(),
        r.0@ == expr_of(pairs.deep_view().subrange(start as int, r.1 as int)),
        forall|j: int| start <= j < r.1 ==> (#[trigger] pairs[j]).rule.infix_op() is None,
        !pairs[r.1 - 1].rule.is_operator(),
    decreases pairs, pairs.len() - start, 0nat,
{
    let ghost s = pairs.deep_view();
    if pairs[start].rule == Rule::UnaryMinus {
        assert(may_follow(s[start as int].rule, s[start + 1].rule));
        let (operand, end) = parse_operand(pairs, start + 1);
        proof {
            let t = s.subrange(start as int, end as int);
            assert(t.skip(1) =~= s.subrange(start + 1, end as int));
        }
        (Expr::UnaryMinus(Box::new(operand)), end)
    } else {
        let primary = parse_primary(&pairs[start]);
        (primary, start + 1)
    }
}

/// Builds the longest expression that starts at `start` and whose infix
/// operators all bind tighter than `floor`. Returns it with the position
/// after it.
fn climb(pairs: &Vec<Node>, start: usize, floor: u8) -> (r: (Expr, usize))
    requires
        is_expr(pairs.deep_view()),
        start < pairs.len(),
        pairs[start as int].rule.infix_op() is None,
    ensures
        start < r.1 <= pairs.len(),
        r.0@ == expr_of(pairs.deep_view().subrange(start as int, r.1 as int)),
        forall|j: int|
            start <= j < r.1 ==> ((#[trigger] pairs[j]).rule.infix_op() matches Some(op)
                ==> op.binding_power() > floor),
        !pairs[r.1 - 1].rule.is_operator(),
        r.1 < pairs.len() ==> (pairs[r.1 as int].rule.infix_op() matches Some(op)
            && op.binding_power() <= floor),
    decreases pairs, pairs.len() - start, 1nat,
{
    let ghost s = pairs.deep_view();
    let (operand, end) = parse_operand(pairs, start);
    let mut left = operand;
    let mut cur = end;
    while cur < pairs.len()
        invariant
            s == pairs.deep_view(),
            is_expr(s),
            start < cur <= pairs.len(),
            // What has been read is an expression of its own, and `left` is
            // what it stands for.
            left@ == expr_of(s.subrange(start as int, cur as int)),
            // Its operators all bind tighter than `floor`,
            forall|j: int|
                start <= j < cur ==> ((#[trigger] pairs[j]).rule.infix_op() matches Some(op)
                    ==> op.binding_power() > floor),
            // it ends with an operand, so that an infix operator comes next,
            !pairs[cur - 1].rule.is_operator(),
            // and none of its operators binds weaker than that next one,
            // which is therefore applied after them.
            cur < pairs.len() ==> forall|j: int|
                start <= j < cur ==> ((#[trigger] pairs[j]).rule.infix_op() matches Some(op)
                    ==> op.binding_power() >= pairs[cur as int].rule.infix_op().unwrap()
                    .binding_power()),
        ensures
            cur < pairs.len() ==> (pairs[cur as int].rule.infix_op() matches Some(op)
                && op.binding_power() <= floor),
        decreases pairs.len() - cur,
    {
        assert(may_follow(s[cur - 1].rule, s[cur as int].rule));
        match pairs[cur].rule.as_infix() {
            Some(op) => {
                if op.precedence() <= floor {
                    break ;
                }
                assert(may_follow(s[cur as int].rule, s[cur + 1].rule));
                let (right, next) = climb(pairs, cur + 1, op.precedence());
                proof {
                    let t = s.subrange(start as int, next as int);
                    let i = cur - start;
                    lemma_root_is(t, i);
                    assert(t.take(i) =~= s.subrange(start as int, cur as int));
                    assert(t.skip(i + 1) =~= s.subrange(cur + 1, next as int));
                }
                left = Expr::BinOp { left: Box::new(left), op, right: Box::new(right) };
                cur = next;
            },
            None => unreached(),
        }
    }
    (left, cur)
}

/// Builds the expression that `pairs` stands for.
///
/// `pairs` holds operands and operators in source order. Multiplicative
/// operators bind tighter than additive ones, operators of one tier
/// associate to the left, and the prefix operator binds tighter than any
/// infix operator.
///
/// `pairs` must have the shape of an expression, which
/// [`crate::shape::has_expr_shape`] decides.
pub fn parse_expr(pairs: &Vec<Node>) -> (e: Expr)
    requires
        is_expr(pairs.deep_view()),
    ensures
        e@ == expr_of(pairs.deep_view()),
    decreases pairs, pairs.len() + 1, 0nat,
{
    let (e, end) = climb(pairs, 0, 0);
    assert(pairs.deep_view().subrange(0, end as int) =~= pairs.deep_view());
    e
}

/// Builds the statement that `pairs` stands for.
///
/// `pairs` holds one node: a statement rule gives the statement it wraps,
/// and a binding gives a `LetStatement` with its name, its annotated type
/// or the `none` keyword type, and its value or the `none` literal.
///
/// `pairs` must have the shape of a statement, which
/// [`crate::shape::has_statement_shape`] decides.
pub fn parse_statement(pairs: &Vec<Node>) -> (s: Statement)
    requires
        is_statement(pairs.deep_view()),
    ensures
        s@ == statement_of(pairs.deep_view()),
{
    parse_statement_node(&pairs[0])
}

/// Builds the type that `pairs` stands for.
///
/// `pairs` holds one node: a bare name gives a base type of that name, an
/// annotation gives the type it wraps, and a type rule gives a keyword
/// type, a base type, or a compound type with its arguments in order.
///
/// `pairs` must have the shape of a type, which
/// [`crate::shape::has_type_shape`] decides.
pub fn parse_type(pairs: &Vec<Node>) -> (t: Type)
    requires
        is_type(pairs.deep_view()),
    ensures
        t@ == type_of(pairs.deep_view()),
{
    parse_type_node(&pairs[0])
}

} // verus!
