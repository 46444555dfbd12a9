//! Decides whether a syntax tree has a shape that the transform accepts.
//!
//! The transform in [`crate::parse`] is defined on accepted shapes only. A
//! caller that cannot know the shape of its tree beforehand asks here first.

use crate::cst::{Node, NodeView, Rule};
use crate::grammar::{
    is_expr, is_primary_node, is_statement, is_statement_node, is_type, is_type_node, may_follow,
};
use crate::parse::keyword;
use vstd::prelude::*;

verus! {

/// Whether `n` has the shape of a type.
#[verifier::loop_isolation(false)]
fn type_shaped_node(n: &Node) -> (ok: bool)
    ensures
        ok == is_type_node(n@),
    decreases n,
{
    match n.rule {
        Rule::Variable => true,
        Rule::TypeAnnotation => n.children.len() == 1 && type_shaped_node(&n.children[0]),
        Rule::Type => {
            if n.children.len() == 0 {
                return false;
            }
            proof {
                n.children[0].lemma_view();
            }
            if n.children.len() == 1 || keyword(&n.children[0].text).is_some() {
                return true;
            }
            let args = &n.children[1].children;
            proof {
                n.children[1].lemma_view();
            }
            if args.len() == 0 {
                return false;
            }
            let mut i: usize = 0;
            while i < args.len()
                invariant
                    i <= args.len(),
                    forall|j: int| 0 <= j < i ==> is_type_node(#[trigger] args[j]@),
                decreases args.len() - i,
            {
                if !type_shaped_node(&args[i]) {
                    assert(n@.children[1].children[i as int] == args[i as int]@);
                    return false;
                }
                i += 1;
            }
            assert forall|j: int| 0 <= j < args.len() implies is_type_node(
                #[trigger] n@.children[1].children[j],
            ) by {
                assert(n@.children[1].children[j] == args[j]@);
            }
            true
        },
        _ => false,
    }
}

/// Whether `n` has the shape of a statement.
fn statement_shaped_node(n: &Node) -> (ok: bool)
    ensures
        ok == is_statement_node(n@),
    decreases n, 0nat,
{
    let c = &n.children;
    match n.rule {
        Rule::Statement => c.len() == 1 && statement_shaped_node(&c[0]),
        Rule::LetStatement => {
            proof {
                if c.len() >= 2 {
                    c[1].lemma_view();
                }
            }
            if c.len() == 1 {
                true
            } else if c.len() == 2 {
                match c[1].rule {
                    Rule::TypeAnnotation => type_shaped_node(&c[1]),
                    Rule::Expr => primary_shaped_node(&c[1]),
                    _ => false,
                }
            } else if c.len() == 3 {
                type_shaped_node(&c[1]) && primary_shaped_node(&c[2])
            } else {
                false
            }
        },
        _ => false,
    }
}

/// Whether `n` has the shape of a primary.
#[verifier::loop_isolation(false)]
fn primary_shaped_node(n: &Node) -> (ok: bool)
    ensures
        ok == is_primary_node(n@),
    decreases n, 0nat,
{
    let c = &n.children;
    match n.rule {
        Rule::IntegerLiteral | Rule::FloatLiteral | Rule::Variable => true,
        Rule::Expr | Rule::BinExp => {
            proof {
                n.lemma_view();
            }
            has_expr_shape(c)
        },
        Rule::ExpBlock => {
            if c.len() == 0 {
                return false;
            }
            let last = c.len() - 1;
            let mut i: usize = 0;
            while i < last
                invariant
                    i <= last,
                    forall|j: int| 0 <= j < i ==> is_statement_node(#[trigger] c[j]@),
                decreases last - i,
            {
                if !statement_shaped_node(&c[i]) {
                    assert(n@.children[i as int] == c[i as int]@);
                    return false;
                }
                i += 1;
            }
            assert forall|j: int| 0 <= j < last implies is_statement_node(
                #[trigger] n@.children[j],
            ) by {
                assert(n@.children[j] == c[j]@);
            }
            primary_shaped_node(&c[last])
        },
        _ => false,
    }
}

/// Whether the node at `i` may stand where it does in `s`: an operator
/// before the start of an operand, a primary before an infix operator or
/// at the end.
spec fn fits(s: Seq<NodeView>, i: int) -> bool {
    if s[i].rule.is_operator() {
        i + 1 < s.len() && s[i + 1].rule.infix_op() is None
    } else {
        is_primary_node(s[i]) && (i + 1 < s.len() ==> s[i + 1].rule.infix_op() is Some)
    }
}

/// A sequence has the shape of an expression exactly if it does not start
/// with an infix operator and each of its nodes fits.
proof fn lemma_is_expr_by_position(s: Seq<NodeView>)
    ensures
        is_expr(s) <==> s.len() > 0 && s[0].rule.infix_op() is None && forall|i: int|
            0 <= i < s.len() ==> fits(s, i),
{
    if s.len() > 0 && s[0].rule.infix_op() is None && forall|i: int|
        0 <= i < s.len() ==> fits(s, i) {
        assert(fits(s, s.len() - 1));
        assert forall|i: int, j: int| 0 <= i && j == i + 1 && j < s.len() implies may_follow(
            (#[trigger] s[i]).rule,
            (#[trigger] s[j]).rule,
        ) by {
            assert(fits(s, i));
        }
        assert forall|i: int|
            0 <= i < s.len() && !(#[trigger] s[i]).rule.is_operator() implies is_primary_node(
            s[i],
        ) by {
            assert(fits(s, i));
        }
    }
}

/// Whether `pairs` is accepted where an expression is expected: operands
/// and operators alternate properly, and every operand is well formed all
/// the way down.
///
/// This is the precondition of [`crate::parse::parse_expr`].
pub fn has_expr_shape(pairs: &Vec<Node>) -> (ok: bool)
    ensures
        ok == is_expr(pairs.deep_view()),
    decreases pairs, 1nat,
{
    proof {
        lemma_is_expr_by_position(pairs.deep_view());
    }
    if pairs.len() == 0 || pairs[0].rule.as_infix().is_some() {
        return false;
    }
    let mut i: usize = 0;
    while i < pairs.len()
        invariant
            i <= pairs.len(),
            forall|j: int| 0 <= j < i ==> fits(pairs.deep_view(), j),
        decreases pairs.len() - i,
    {
        let followed_by_infix = i + 1 < pairs.len() && pairs[i + 1].rule.as_infix().is_some();
        let fits_here = if pairs[i].rule.as_infix().is_some() || pairs[i].rule == Rule::UnaryMinus {
            i + 1 < pairs.len() && !followed_by_infix
        } else {
            primary_shaped_node(&pairs[i]) && (i + 1 == pairs.len() || followed_by_infix)
        };
        if !fits_here {
            assert(!fits(pairs.deep_view(), i as int));
            return false;
        }
        i += 1;
    }
    true
}

/// Whether `pairs` is accepted where a statement is expected: one node, a
/// binding with one to three children of the right kinds or a wrapper
/// around such a statement.
///
/// This is the precondition of [`crate::parse::parse_statement`].
pub fn has_statement_shape(pairs: &Vec<Node>) -> (ok: bool)
    ensures
        ok == is_statement(pairs.deep_view()),
{
    pairs.len() == 1 && statement_shaped_node(&pairs[0])
}

/// Whether `pairs` is accepted where a type is expected: one node, a bare
/// name, an annotation around a type, or a type rule with a name and, for
/// a generic type, at least one argument.
///
/// This is the precondition of [`crate::parse::parse_type`].
pub fn has_type_shape(pairs: &Vec<Node>) -> (ok: bool)
    ensures
        ok == is_type(pairs.deep_view()),
{
    pairs.len() == 1 && type_shaped_node(&pairs[0])
}

} // verus!
