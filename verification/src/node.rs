//! Concrete syntax nodes and pattern nodes, as plain values.

use vstd::prelude::*;
use crate::position::Point;

verus! {

/// The mathematical model of a [`ConcreteNode`].
pub struct ConcreteNodeView {
    pub kind: Seq<char>,
    pub is_named: bool,
    pub is_missing: bool,
    pub start: Point,
    pub end: Point,
    pub text: Seq<char>,
    pub children: Seq<ConcreteNodeView>,
}

/// One node of a parsed concrete syntax tree, with the subtree below it.
#[derive(Debug, PartialEq, Eq)]
pub struct ConcreteNode {
    /// The name of the node's kind in its grammar.
    pub kind: String,
    /// Whether the grammar counts the node as named.
    pub is_named: bool,
    /// Whether the parser inserted the node to recover from a syntax error.
    pub is_missing: bool,
    /// Where the node's span starts in the source.
    pub start: Point,
    /// Where the node's span ends in the source.
    pub end: Point,
    /// The source text of the node's span.
    pub text: String,
    /// The node's children, in source order.
    pub children: Vec<ConcreteNode>,
}

impl ConcreteNode {
    /// The node and the subtree below it as mathematical values.
    pub open spec fn model(self) -> ConcreteNodeView
        decreases self,
    {
        ConcreteNodeView {
            kind: self.kind@,
            is_named: self.is_named,
            is_missing: self.is_missing,
            start: self.start,
            end: self.end,
            text: self.text@,
            children: Seq::new(
                self.children.len() as nat,
                |i: int|
                    if 0 <= i < self.children.len() {
                        self.children[i].model()
                    } else {
                        arbitrary()
                    },
            ),
        }
    }
}

impl View for ConcreteNode {
    type V = ConcreteNodeView;

    open spec fn view(&self) -> ConcreteNodeView {
        self.model()
    }
}

/// The mathematical model of a [`PatternNode`].
pub enum PatternNodeView {
    MetaVar,
    Terminal { is_named: bool },
    Internal { children: Seq<PatternNodeView> },
}

/// One element of a compiled pattern's matcher tree.
#[derive(Debug, PartialEq, Eq)]
pub enum PatternNode {
    /// A capturing placeholder, bound to one concrete subtree by a match.
    MetaVar,
    /// A leaf that expects a literal token.
    Terminal {
        /// Whether the pattern declares the token as named.
        is_named: bool,
    },
    /// A compound node, matched child by child.
    Internal {
        /// The pattern's children, in order.
        children: Vec<PatternNode>,
    },
}

impl PatternNode {
    /// The pattern node and the nodes below it as mathematical values.
    pub open spec fn model(self) -> PatternNodeView
        decreases self,
    {
        match self {
            PatternNode::MetaVar => PatternNodeView::MetaVar,
            PatternNode::Terminal { is_named } => PatternNodeView::Terminal { is_named },
            PatternNode::Internal { children } => PatternNodeView::Internal {
                children: Seq::new(
                    children.len() as nat,
                    |i: int|
                        if 0 <= i < children.len() {
                            children[i].model()
                        } else {
                            arbitrary()
                        },
                ),
            },
        }
    }
}

impl View for PatternNode {
    type V = PatternNodeView;

    open spec fn view(&self) -> PatternNodeView {
        self.model()
    }
}

} // verus!
