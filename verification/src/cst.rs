//! The concrete syntax tree that the grammar engine produces: an ordered
//! tree of nodes, each labelled with the rule that matched and carrying the
//! matched text.

use vstd::prelude::*;

verus! {

/// The label of a syntax tree node.
#[derive(Debug, Clone, Copy, PartialEq, Eq, PartialOrd, Ord, Hash, Structural)]
pub enum Rule {
    Main,
    Statement,
    LetStatement,
    Expr,
    BinExp,
    ExpBlock,
    Type,
    /// The bracketed argument list of a generic type.
    TypeBlock,
    TypeAnnotation,
    Variable,
    IntegerLiteral,
    FloatLiteral,
    Add,
    Subtract,
    Multiply,
    Divide,
    Modulo,
    UnaryMinus,
    EndOfInput,
}

/// A node of the concrete syntax tree.
#[derive(Debug, PartialEq, Eq)]
pub struct Node {
    pub rule: Rule,
    /// The source text that the node spans.
    pub text: String,
    /// The nodes matched inside this one, in source order.
    pub children: Vec<Node>,
}

/// What a [`Node`] stands for: a labelled tree with text at each node.
pub struct NodeView {
    pub rule: Rule,
    pub text: Seq<char>,
    pub children: Seq<NodeView>,
}

/// The view of a node, by recursion on its structure.
pub open spec fn node_view(n: Node) -> NodeView
    decreases n,
{
    NodeView {
        rule: n.rule,
        text: n.text@,
        children: Seq::new(
            n.children@.len(),
            |i: int|
                if 0 <= i < n.children@.len() {
                    node_view(n.children@[i])
                } else {
                    arbitrary()
                },
        ),
    }
}

impl View for Node {
    type V = NodeView;

    open spec fn view(&self) -> NodeView {
        node_view(*self)
    }
}

impl DeepView for Node {
    type V = NodeView;

    open spec fn deep_view(&self) -> NodeView {
        node_view(*self)
    }
}

impl Node {
    /// The view of a node has the node's rule, the view of its text, and
    /// the views of its children.
    pub proof fn lemma_view(self)
        ensures
            self@.rule == self.rule,
            self@.text == self.text@,
            self@.children == self.children.deep_view(),
    {
    }

    /// A node without children.
    pub fn leaf(rule: Rule, text: &str) -> (n: Node)
        ensures
            n@ == (NodeView { rule, text: text@, children: Seq::empty() }),
    {
        let n = Node { rule, text: text.to_owned(), children: Vec::new() };
        assert(n@.children =~= Seq::empty());
        n
    }

    /// A node with the given children.
    pub fn branch(rule: Rule, text: &str, children: Vec<Node>) -> (n: Node)
        ensures
            n@ == (NodeView { rule, text: text@, children: children.deep_view() }),
    {
        let n = Node { rule, text: text.to_owned(), children };
        proof {
            n.lemma_view();
        }
        n
    }
}

} // verus!
