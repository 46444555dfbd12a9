//! The operator table: which rules are operators, and how tightly each
//! infix operator binds.
//!
//! There are two tiers of infix operators, the additive below the
//! multiplicative, and one prefix operator, which binds tighter than both.

use crate::ast::BinaryOp;
use crate::cst::Rule;
use vstd::prelude::*;

verus! {

impl BinaryOp {
    /// How tightly the operator binds: additive operators bind weaker than
    /// multiplicative ones, and operators of one tier bind equally.
    pub open spec fn binding_power(self) -> nat {
        match self {
            BinaryOp::Add | BinaryOp::Subtract => 1,
            BinaryOp::Multiply | BinaryOp::Divide | BinaryOp::Modulo => 2,
        }
    }

    /// The binding power as a machine integer.
    pub fn precedence(self) -> (p: u8)
        ensures
            p == self.binding_power(),
    {
        match self {
            BinaryOp::Add | BinaryOp::Subtract => 1,
            BinaryOp::Multiply | BinaryOp::Divide | BinaryOp::Modulo => 2,
        }
    }
}

impl Rule {
    /// The infix operator that the rule stands for, if it stands for one.
    pub open spec fn infix_op(self) -> Option<BinaryOp> {
        match self {
            Rule::Add => Some(BinaryOp::Add),
            Rule::Subtract => Some(BinaryOp::Subtract),
            Rule::Multiply => Some(BinaryOp::Multiply),
            Rule::Divide => Some(BinaryOp::Divide),
            Rule::Modulo => Some(BinaryOp::Modulo),
            _ => None,
        }
    }

    /// Whether the rule is the prefix operator.
    pub open spec fn is_prefix(self) -> bool {
        self == Rule::UnaryMinus
    }

    /// Whether the rule is an operator, infix or prefix. Every other rule
    /// labels an operand.
    pub open spec fn is_operator(self) -> bool {
        self.infix_op() is Some || self.is_prefix()
    }

    /// Maps an infix operator rule to its operator.
    pub fn as_infix(self) -> (op: Option<BinaryOp>)
        ensures
            op == self.infix_op(),
    {
        match self {
            Rule::Add => Some(BinaryOp::Add),
            Rule::Subtract => Some(BinaryOp::Subtract),
            Rule::Multiply => Some(BinaryOp::Multiply),
            Rule::Divide => Some(BinaryOp::Divide),
            Rule::Modulo => Some(BinaryOp::Modulo),
            _ => None,
        }
    }
}

} // verus!
