//! The reconciliation of a matcher tree with the concrete tree it matched.

use vstd::prelude::*;
use crate::node::{ConcreteNode, ConcreteNodeView, PatternNode, PatternNodeView};
use crate::position::PatternPos;
use crate::expando::{lemma_restore_sigils_without_expando, restore_sigils, undo_expando};
use crate::text::{kind_label, kind_label_spec, MISSING_PREFIX};
use crate::tree::{PatternKind, PatternTree, PatternTreeView};

verus! {

/// The number of child pairs that a compound pattern node and a concrete
/// node form: each pattern child is paired with the concrete child at the
/// same place, and what is left over on either side is dropped.
pub open spec fn paired_children(node: ConcreteNodeView, children: Seq<PatternNodeView>) -> nat {
    if children.len() <= node.children.len() {
        children.len()
    } else {
        node.children.len()
    }
}

/// The dump of a pattern node against the concrete node it was matched
/// with.
///
/// Every dumped node takes its label and its span from the concrete node.
/// A meta-variable is a leaf that counts as named and carries the concrete
/// node's text with the expando substitution undone. A terminal is a leaf
/// that takes its named flag from the pattern and carries the concrete
/// node's text as it is. A compound node counts as named, carries no text
/// and has one dumped child for each pair of children.
pub open spec fn dump_spec(
    node: ConcreteNodeView,
    pattern: PatternNodeView,
    expando: char,
) -> PatternTreeView
    decreases pattern,
{
    match pattern {
        PatternNodeView::MetaVar => PatternTreeView {
            kind: kind_label_spec(node.kind, node.is_missing),
            start: node.start.to_pos(),
            end: node.end.to_pos(),
            is_named: true,
            children: Seq::empty(),
            text: Some(restore_sigils(node.text, expando)),
            pattern: Some(PatternKind::MetaVar),
        },
        PatternNodeView::Terminal { is_named } => PatternTreeView {
            kind: kind_label_spec(node.kind, node.is_missing),
            start: node.start.to_pos(),
            end: node.end.to_pos(),
            is_named,
            children: Seq::empty(),
            text: Some(node.text),
            pattern: Some(PatternKind::Terminal),
        },
        PatternNodeView::Internal { children } => PatternTreeView {
            kind: kind_label_spec(node.kind, node.is_missing),
            start: node.start.to_pos(),
            end: node.end.to_pos(),
            is_named: true,
            children: Seq::new(
                paired_children(node, children),
                |i: int|
                    if 0 <= i < children.len() {
                        dump_spec(node.children[i], children[i], expando)
                    } else {
                        arbitrary()
                    },
            ),
            text: None,
            pattern: Some(PatternKind::Internal),
        },
    }
}

/// Dumps a pattern node against the concrete node it was matched with.
///
/// `expando` is the character that stands in for the meta-variable sigil
/// in the language of the concrete tree.
pub fn dump_pattern_node(node: &ConcreteNode, pattern: &PatternNode, expando: char) -> (tree:
    PatternTree)
    ensures
        tree@ == dump_spec(node@, pattern@, expando),
    decreases pattern,
{
    let kind = kind_label(node.kind.as_str(), node.is_missing);
    let start = PatternPos::from(node.start);
    let end = PatternPos::from(node.end);
    match pattern {
        PatternNode::MetaVar => {
            let text = undo_expando(node.text.as_str(), expando);
            let tree = PatternTree {
                kind,
                start,
                end,
                is_named: true,
                children: Vec::new(),
                text: Some(text),
                pattern: Some(PatternKind::MetaVar),
            };
            assert(tree@.children =~= Seq::empty());
            tree
        },
        PatternNode::Terminal { is_named } => {
            let tree = PatternTree {
                kind,
                start,
                end,
                is_named: *is_named,
                children: Vec::new(),
                text: Some(node.text.clone()),
                pattern: Some(PatternKind::Terminal),
            };
            assert(tree@.children =~= Seq::empty());
            tree
        },
        PatternNode::Internal { children } => {
            let pairs = if children.len() <= node.children.len() {
                children.len()
            } else {
                node.children.len()
            };
            let mut dumped: Vec<PatternTree> = Vec::new();
            let mut i: usize = 0;
            while i < pairs
                invariant
                    i <= pairs,
                    pairs <= children.len(),
                    pairs <= node.children.len(),
                    pattern is Internal,
                    pattern->children == *children,
                    dumped.len() == i,
                    forall|j: int|
                        0 <= j < i ==> (#[trigger] dumped[j])@ == dump_spec(
                            node.children[j]@,
                            children[j]@,
                            expando,
                        ),
                decreases pairs - i,
            {
                let sub = &children[i];
                proof {
                    assert(decreases_to!(pattern => pattern->children));
                    assert(decreases_to!(pattern->children => pattern->children[i as int]));
                }
                let child = dump_pattern_node(&node.children[i], sub, expando);
                dumped.push(child);
                i += 1;
            }
            let tree = PatternTree {
                kind,
                start,
                end,
                is_named: true,
                children: dumped,
                text: None,
                pattern: Some(PatternKind::Internal),
            };
            proof {
                let expected = dump_spec(node@, pattern@, expando).children;
                assert forall|j: int| 0 <= j < expected.len() implies tree@.children[j]
                    == expected[j] by {
                    assert(tree@.children[j] == dumped[j]@);
                    assert(node@.children[j] == node.children[j]@);
                }
                assert(tree@.children =~= expected);
            }
            tree
        },
    }
}

/// A dumped compound node holds, at each place, the dump of the pair of
/// children at that place.
pub proof fn lemma_dump_child(
    node: ConcreteNodeView,
    children: Seq<PatternNodeView>,
    expando: char,
    i: int,
)
    requires
        0 <= i < paired_children(node, children),
    ensures
        dump_spec(node, PatternNodeView::Internal { children }, expando).children.len()
            == paired_children(node, children),
        dump_spec(node, PatternNodeView::Internal { children }, expando).children[i] == dump_spec(
            node.children[i],
            children[i],
            expando,
        ),
{
}

/// A captured text that holds no expando character is dumped exactly as it
/// stands in the source: the undo step changes nothing where nothing was
/// substituted.
pub proof fn law_meta_var_text_round_trip(node: ConcreteNodeView, expando: char)
    requires
        !node.text.contains(expando),
    ensures
        dump_spec(node, PatternNodeView::MetaVar, expando).text == Some(node.text),
{
    lemma_restore_sigils_without_expando(node.text, expando);
}

/// The text of a terminal is the concrete node's text, whatever the
/// expando character is and wherever it occurs in that text.
pub proof fn law_terminal_text_untouched(node: ConcreteNodeView, is_named: bool, expando: char)
    ensures
        dump_spec(node, PatternNodeView::Terminal { is_named }, expando).text == Some(node.text),
{
}

/// Whether every terminal of the pattern, at any depth, stands in the tree
/// with the text of the concrete node it is paired with.
pub open spec fn terminals_verbatim(
    node: ConcreteNodeView,
    pattern: PatternNodeView,
    tree: PatternTreeView,
) -> bool
    decreases pattern,
{
    match pattern {
        PatternNodeView::MetaVar => true,
        PatternNodeView::Terminal { .. } => tree.text == Some(node.text),
        PatternNodeView::Internal { children } => forall|i: int|
            0 <= i < children.len() && i < tree.children.len() ==> terminals_verbatim(
                node.children[i],
                #[trigger] children[i],
                tree.children[i],
            ),
    }
}

/// The undo step reaches the text of meta-variables only: in a dump, every
/// terminal at every depth carries its concrete node's text unchanged.
pub proof fn law_undo_spares_terminals(
    node: ConcreteNodeView,
    pattern: PatternNodeView,
    expando: char,
)
    ensures
        terminals_verbatim(node, pattern, dump_spec(node, pattern, expando)),
    decreases pattern,
{
    if let PatternNodeView::Internal { children } = pattern {
        let tree = dump_spec(node, pattern, expando);
        assert forall|i: int|
            0 <= i < children.len() && i < tree.children.len() implies terminals_verbatim(
            node.children[i],
            #[trigger] children[i],
            tree.children[i],
        ) by {
            law_undo_spares_terminals(node.children[i], children[i], expando);
        }
    }
}

/// A dumped node carries the missing-node prefix before its kind exactly
/// where the parser inserted the concrete node; elsewhere its label is the
/// kind's name alone. This holds for every shape of pattern node.
pub proof fn law_missing_label(node: ConcreteNodeView, pattern: PatternNodeView, expando: char)
    ensures
        node.is_missing ==> dump_spec(node, pattern, expando).kind == MISSING_PREFIX@ + node.kind,
        !node.is_missing ==> dump_spec(node, pattern, expando).kind == node.kind,
{
}

/// Among the dumped children of a compound node, those whose concrete node
/// the parser inserted carry the missing-node prefix, and their siblings
/// carry their kind's name alone.
pub proof fn law_missing_label_of_children(
    node: ConcreteNodeView,
    children: Seq<PatternNodeView>,
    expando: char,
)
    ensures
        forall|i: int|
            0 <= i < paired_children(node, children) ==> (#[trigger] dump_spec(
                node,
                PatternNodeView::Internal { children },
                expando,
            ).children[i]).kind == kind_label_spec(
                node.children[i].kind,
                node.children[i].is_missing,
            ),
{
    let tree = dump_spec(node, PatternNodeView::Internal { children }, expando);
    assert forall|i: int| 0 <= i < paired_children(node, children) implies (
    #[trigger] tree.children[i]).kind == kind_label_spec(
        node.children[i].kind,
        node.children[i].is_missing,
    ) by {
        lemma_dump_child(node, children, expando, i);
        law_missing_label(node.children[i], children[i], expando);
    }
}

/// Where a compound pattern node has as many children as the concrete
/// node it is matched with, the dumped node has that many children too:
/// no pair is dropped.
pub proof fn law_structural_congruence(
    node: ConcreteNodeView,
    children: Seq<PatternNodeView>,
    expando: char,
)
    requires
        children.len() == node.children.len(),
    ensures
        dump_spec(node, PatternNodeView::Internal { children }, expando).children.len()
            == node.children.len(),
{
}

/// Whether the pattern and the concrete tree agree in shape: every compound
/// pattern node, at any depth, has as many children as the concrete node it
/// is paired with.
pub open spec fn congruent(node: ConcreteNodeView, pattern: PatternNodeView) -> bool
    decreases pattern,
{
    match pattern {
        PatternNodeView::Internal { children } => {
            &&& children.len() == node.children.len()
            &&& forall|i: int|
                0 <= i < children.len() ==> congruent(node.children[i], #[trigger] children[i])
        },
        _ => true,
    }
}

/// Whether every node of the tree that stands for a compound pattern node,
/// at any depth, has as many children as its concrete node.
pub open spec fn child_counts_agree(
    node: ConcreteNodeView,
    pattern: PatternNodeView,
    tree: PatternTreeView,
) -> bool
    decreases pattern,
{
    match pattern {
        PatternNodeView::Internal { children } => {
            &&& tree.children.len() == node.children.len()
            &&& forall|i: int|
                0 <= i < children.len() && i < tree.children.len() ==> child_counts_agree(
                    node.children[i],
                    #[trigger] children[i],
                    tree.children[i],
                )
        },
        _ => true,
    }
}

/// Where the pattern and the concrete tree agree in shape, so do the dump
/// and the concrete tree, at every depth.
pub proof fn law_structural_congruence_deep(
    node: ConcreteNodeView,
    pattern: PatternNodeView,
    expando: char,
)
    requires
        congruent(node, pattern),
    ensures
        child_counts_agree(node, pattern, dump_spec(node, pattern, expando)),
    decreases pattern,
{
    if let PatternNodeView::Internal { children } = pattern {
        let tree = dump_spec(node, pattern, expando);
        assert forall|i: int|
            0 <= i < children.len() && i < tree.children.len() implies child_counts_agree(
            node.children[i],
            #[trigger] children[i],
            tree.children[i],
        ) by {
            law_structural_congruence_deep(node.children[i], children[i], expando);
        }
    }
}

} // verus!
