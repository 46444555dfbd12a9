//! Theorems about the meaning of syntax trees.
//!
//! Each is stated over the specification functions of [`crate::grammar`],
//! which are what the transform is proved to compute, so each holds of the
//! transform's results.

use crate::ast::{ExprView, LiteralView, PrimitiveType};
use crate::cst::{NodeView, Rule};
use crate::grammar::{
    expr_of, is_expr, is_primary_node, is_statement_node, is_type_node, keyword_type,
    lemma_no_root, lemma_root_is, primary_of, statement_of_node, type_of_node,
};
use vstd::prelude::*;

verus! {

/// A single operand stands for itself: alone in a sequence, a node is an
/// expression exactly if it is a primary, and then means what the primary
/// means.
pub proof fn law_single_operand(n: NodeView)
    ensures
        is_expr(seq![n]) <==> is_primary_node(n),
        n.rule.infix_op() is None ==> expr_of(seq![n]) == primary_of(n),
{
    if n.rule.infix_op() is None {
        lemma_no_root(seq![n]);
    }
}

/// An infix operator that binds no tighter than any operator left of it,
/// and weaker than every operator right of it, is applied last: it joins
/// the meaning of what stands left of it with the meaning of what stands
/// right of it.
pub proof fn law_split_at_root(left: Seq<NodeView>, o: NodeView, right: Seq<NodeView>)
    requires
        o.rule.infix_op() is Some,
        forall|j: int|
            0 <= j < left.len() ==> ((#[trigger] left[j]).rule.infix_op() matches Some(other)
                ==> other.binding_power() >= o.rule.infix_op().unwrap().binding_power()),
        forall|j: int|
            0 <= j < right.len() ==> ((#[trigger] right[j]).rule.infix_op() matches Some(other)
                ==> other.binding_power() > o.rule.infix_op().unwrap().binding_power()),
    ensures
        expr_of(left + seq![o] + right) == (ExprView::BinOp {
            left: Box::new(expr_of(left)),
            op: o.rule.infix_op().unwrap(),
            right: Box::new(expr_of(right)),
        }),
{
    let s = left + seq![o] + right;
    let i = left.len() as int;
    lemma_root_is(s, i);
    assert(s.take(i) =~= left);
    assert(s.skip(i + 1) =~= right);
}

/// A prefix operator before an operand negates it.
pub proof fn law_negation(minus: NodeView, operand: Seq<NodeView>)
    requires
        minus.rule.is_prefix(),
        operand.len() > 0,
        forall|j: int| 0 <= j < operand.len() ==> (#[trigger] operand[j]).rule.infix_op() is None,
    ensures
        expr_of(seq![minus] + operand) == ExprView::UnaryMinus(Box::new(expr_of(operand))),
{
    let s = seq![minus] + operand;
    lemma_no_root(s);
    assert(s.skip(1) =~= operand);
}

/// Three primaries with an infix operator after the first and after the
/// second form an expression.
proof fn lemma_two_operators(a: NodeView, o1: NodeView, b: NodeView, o2: NodeView, c: NodeView)
    requires
        is_primary_node(a),
        is_primary_node(b),
        is_primary_node(c),
        o1.rule.infix_op() is Some,
        o2.rule.infix_op() is Some,
    ensures
        is_expr(seq![a, o1, b, o2, c]),
        a.rule.infix_op() is None,
        b.rule.infix_op() is None,
        c.rule.infix_op() is None,
{
}

/// Where the first of two operators binds at least as tightly as the
/// second, the first is applied first: `a o1 b o2 c` means `(a o1 b) o2 c`.
/// This holds of two operators of one tier, which so associate to the left,
/// and of a multiplicative operator followed by an additive one.
pub proof fn law_left_to_right(
    a: NodeView,
    o1: NodeView,
    b: NodeView,
    o2: NodeView,
    c: NodeView,
)
    requires
        is_primary_node(a),
        is_primary_node(b),
        is_primary_node(c),
        o1.rule.infix_op() is Some,
        o2.rule.infix_op() is Some,
        o1.rule.infix_op().unwrap().binding_power()
            >= o2.rule.infix_op().unwrap().binding_power(),
    ensures
        is_expr(seq![a, o1, b, o2, c]),
        expr_of(seq![a, o1, b, o2, c]) == (ExprView::BinOp {
            left: Box::new(
                ExprView::BinOp {
                    left: Box::new(primary_of(a)),
                    op: o1.rule.infix_op().unwrap(),
                    right: Box::new(primary_of(b)),
                },
            ),
            op: o2.rule.infix_op().unwrap(),
            right: Box::new(primary_of(c)),
        }),
{
    lemma_two_operators(a, o1, b, o2, c);
    let left = seq![a, o1, b];
    law_split_at_root(left, o2, seq![c]);
    assert(left + seq![o2] + seq![c] =~= seq![a, o1, b, o2, c]);
    law_split_at_root(seq![a], o1, seq![b]);
    assert(seq![a] + seq![o1] + seq![b] =~= left);
    law_single_operand(a);
    law_single_operand(b);
    law_single_operand(c);
}

/// Operators of one tier associate to the left: with two additive or two
/// multiplicative operators, `a o1 b o2 c` means `(a o1 b) o2 c`.
pub proof fn law_same_tier_associates_left(
    a: NodeView,
    o1: NodeView,
    b: NodeView,
    o2: NodeView,
    c: NodeView,
)
    requires
        is_primary_node(a),
        is_primary_node(b),
        is_primary_node(c),
        o1.rule.infix_op() is Some,
        o2.rule.infix_op() is Some,
        o1.rule.infix_op().unwrap().binding_power()
            == o2.rule.infix_op().unwrap().binding_power(),
    ensures
        is_expr(seq![a, o1, b, o2, c]),
        expr_of(seq![a, o1, b, o2, c]) == (ExprView::BinOp {
            left: Box::new(
                ExprView::BinOp {
                    left: Box::new(primary_of(a)),
                    op: o1.rule.infix_op().unwrap(),
                    right: Box::new(primary_of(b)),
                },
            ),
            op: o2.rule.infix_op().unwrap(),
            right: Box::new(primary_of(c)),
        }),
{
    law_left_to_right(a, o1, b, o2, c);
}

/// A multiplicative operator binds tighter than an additive one before it:
/// `a o1 b o2 c` with `o1` additive and `o2` multiplicative means
/// `a o1 (b o2 c)`.
pub proof fn law_tighter_binds_first(
    a: NodeView,
    o1: NodeView,
    b: NodeView,
    o2: NodeView,
    c: NodeView,
)
    requires
        is_primary_node(a),
        is_primary_node(b),
        is_primary_node(c),
        o1.rule.infix_op() is Some,
        o2.rule.infix_op() is Some,
        o1.rule.infix_op().unwrap().binding_power()
            < o2.rule.infix_op().unwrap().binding_power(),
    ensures
        is_expr(seq![a, o1, b, o2, c]),
        expr_of(seq![a, o1, b, o2, c]) == (ExprView::BinOp {
            left: Box::new(primary_of(a)),
            op: o1.rule.infix_op().unwrap(),
            right: Box::new(
                ExprView::BinOp {
                    left: Box::new(primary_of(b)),
                    op: o2.rule.infix_op().unwrap(),
                    right: Box::new(primary_of(c)),
                },
            ),
        }),
{
    lemma_two_operators(a, o1, b, o2, c);
    let right = seq![b, o2, c];
    law_split_at_root(seq![a], o1, right);
    assert(seq![a] + seq![o1] + right =~= seq![a, o1, b, o2, c]);
    law_split_at_root(seq![b], o2, seq![c]);
    assert(seq![b] + seq![o2] + seq![c] =~= right);
    law_single_operand(a);
    law_single_operand(b);
    law_single_operand(c);
}

/// The prefix operator binds tighter than any infix operator: `-a o b`
/// means `(-a) o b`.
pub proof fn law_prefix_binds_tightest(minus: NodeView, a: NodeView, o: NodeView, b: NodeView)
    requires
        minus.rule.is_prefix(),
        is_primary_node(a),
        o.rule.infix_op() is Some,
        is_primary_node(b),
    ensures
        is_expr(seq![minus, a, o, b]),
        expr_of(seq![minus, a, o, b]) == (ExprView::BinOp {
            left: Box::new(ExprView::UnaryMinus(Box::new(primary_of(a)))),
            op: o.rule.infix_op().unwrap(),
            right: Box::new(primary_of(b)),
        }),
{
    law_split_at_root(seq![minus, a], o, seq![b]);
    assert(seq![minus, a] + seq![o] + seq![b] =~= seq![minus, a, o, b]);
    law_negation(minus, seq![a]);
    assert(seq![minus] + seq![a] =~= seq![minus, a]);
    law_single_operand(a);
    law_single_operand(b);
}

/// What stands on either side of an infix operator in an expression is an
/// expression.
pub proof fn law_operands_are_expressions(s: Seq<NodeView>, i: int)
    requires
        is_expr(s),
        0 <= i < s.len(),
        s[i].rule.infix_op() is Some,
    ensures
        0 < i < s.len() - 1,
        is_expr(s.take(i)),
        is_expr(s.skip(i + 1)),
{
}

/// Each of the four reserved words spells its keyword type, and no other
/// text is taken for one of them.
pub proof fn law_keywords(text: Seq<char>)
    ensures
        keyword_type("integer"@) == Some(PrimitiveType::Integer),
        keyword_type("floating"@) == Some(PrimitiveType::Floating),
        keyword_type("boolean"@) == Some(PrimitiveType::Boolean),
        keyword_type("none"@) == Some(PrimitiveType::NoneType),
        keyword_type(text) is Some <==> text == "integer"@ || text == "floating"@ || text
            == "boolean"@ || text == "none"@,
{
    reveal_strlit("integer");
    reveal_strlit("floating");
    reveal_strlit("boolean");
    reveal_strlit("none");
    assert("integer"@.len() == 7 && "floating"@.len() == 8 && "none"@.len() == 4);
    assert("boolean"@[0] != "integer"@[0]);
}

/// A literal keeps the text that was matched, character for character.
pub proof fn law_literal_text_preserved(n: NodeView)
    requires
        n.rule == Rule::IntegerLiteral || n.rule == Rule::FloatLiteral,
    ensures
        is_expr(seq![n]),
        n.rule == Rule::IntegerLiteral ==> expr_of(seq![n]) == ExprView::Literal(
            LiteralView::Integer(n.text),
        ),
        n.rule == Rule::FloatLiteral ==> expr_of(seq![n]) == ExprView::Literal(
            LiteralView::Floating(n.text),
        ),
{
    law_single_operand(n);
}

/// A binding is accepted only with one, two or three children, and an
/// accepted statement is a binding with all three fields, never `Nop`.
pub proof fn law_binding_arity(n: NodeView)
    requires
        is_statement_node(n),
    ensures
        n.rule == Rule::LetStatement ==> 1 <= n.children.len() <= 3,
        statement_of_node(n) is LetStatement,
    decreases n,
{
    if n.rule == Rule::Statement {
        law_binding_arity(n.children[0]);
    }
}

/// The type of an accepted node is well formed: the base of every compound
/// type in it is a bare name, every compound type has at least one
/// argument, and nothing in it is left unknown.
pub proof fn law_type_well_formed(n: NodeView)
    requires
        is_type_node(n),
    ensures
        type_of_node(n).well_formed(),
    decreases n,
{
    let c = n.children;
    if n.rule == Rule::TypeAnnotation {
        law_type_well_formed(c[0]);
    } else if n.rule == Rule::Type && c.len() >= 2 && keyword_type(c[0].text) is None {
        let args = c[1].children;
        assert forall|i: int| 0 <= i < args.len() implies type_of_node(
            #[trigger] args[i],
        ).well_formed() by {
            law_type_well_formed(args[i]);
        }
    }
}

} // verus!
