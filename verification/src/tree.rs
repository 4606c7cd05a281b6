//! The tree that a dump gives.

use vstd::prelude::*;
use crate::position::PatternPos;
use crate::text::optional_text;

verus! {

/// Which shape of pattern node stands behind a node of a dumped tree.
#[derive(Clone, Copy, Debug, PartialEq, Eq, Structural)]
pub enum PatternKind {
    Terminal,
    MetaVar,
    Internal,
}

/// The mathematical model of a [`PatternTree`].
pub struct PatternTreeView {
    pub kind: Seq<char>,
    pub start: PatternPos,
    pub end: PatternPos,
    pub is_named: bool,
    pub children: Seq<PatternTreeView>,
    pub text: Option<Seq<char>>,
    pub pattern: Option<PatternKind>,
}

/// A dumped pattern: one node for each pair of a pattern node and the
/// concrete node it was matched with. The tree owns all of its data.
#[derive(Debug, PartialEq, Eq)]
pub struct PatternTree {
    /// The concrete node's kind, marked where the parser inserted the node.
    pub kind: String,
    /// Where the concrete node starts in the source.
    pub start: PatternPos,
    /// Where the concrete node ends in the source.
    pub end: PatternPos,
    /// Whether the node counts as named.
    pub is_named: bool,
    /// The dumped children, in order.
    pub children: Vec<PatternTree>,
    /// The captured text; only leaves carry one.
    pub text: Option<String>,
    /// The shape of the pattern node behind this node.
    pub pattern: Option<PatternKind>,
}

impl PatternTree {
    /// The tree as a mathematical value.
    pub open spec fn model(self) -> PatternTreeView
        decreases self,
    {
        PatternTreeView {
            kind: self.kind@,
            start: self.start,
            end: self.end,
            is_named: self.is_named,
            children: Seq::new(
                self.children.len() as nat,
                |i: int|
                    if 0 <= i < self.children.len() {
                        self.children[i].model()
                    } else {
                        arbitrary()
                    },
            ),
            text: optional_text(self.text),
            pattern: self.pattern,
        }
    }
}

impl View for PatternTree {
    type V = PatternTreeView;

    open spec fn view(&self) -> PatternTreeView {
        self.model()
    }
}

} // verus!
