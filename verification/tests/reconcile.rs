use ast_grep_wasm::expando::undo_expando;
use ast_grep_wasm::text::kind_label;
use ast_grep_wasm::{
    dump_pattern_node, ConcreteNode, PatternKind, PatternNode, PatternPos, PatternTree, Point,
};

fn leaf(kind: &str, named: bool, text: &str, row: u32, from: u32, to: u32) -> ConcreteNode {
    ConcreteNode {
        kind: kind.to_string(),
        is_named: named,
        is_missing: false,
        start: Point { row, column: from },
        end: Point { row, column: to },
        text: text.to_string(),
        children: vec![],
    }
}

fn branch(kind: &str, text: &str, from: u32, to: u32, children: Vec<ConcreteNode>) -> ConcreteNode {
    ConcreteNode {
        kind: kind.to_string(),
        is_named: true,
        is_missing: false,
        start: Point { row: 0, column: from },
        end: Point { row: 0, column: to },
        text: text.to_string(),
        children,
    }
}

fn json_object() -> ConcreteNode {
    let pair = branch(
        "pair",
        "\"a\": 42",
        1,
        8,
        vec![
            leaf("string", true, "\"a\"", 0, 1, 4),
            leaf(":", false, ":", 0, 4, 5),
            leaf("number", true, "42", 0, 6, 8),
        ],
    );
    branch(
        "object",
        "{\"a\": 42}",
        0,
        9,
        vec![leaf("{", false, "{", 0, 0, 1), pair, leaf("}", false, "}", 0, 8, 9)],
    )
}

fn json_pattern() -> PatternNode {
    PatternNode::Internal {
        children: vec![
            PatternNode::Terminal { is_named: false },
            PatternNode::Internal {
                children: vec![
                    PatternNode::Terminal { is_named: true },
                    PatternNode::Terminal { is_named: false },
                    PatternNode::MetaVar,
                ],
            },
            PatternNode::Terminal { is_named: false },
        ],
    }
}

#[test]
fn json_pattern_is_dumped_against_the_object() {
    let tree = dump_pattern_node(&json_object(), &json_pattern(), '$');
    assert_eq!(tree.kind, "object");
    assert_eq!(tree.pattern, Some(PatternKind::Internal));
    assert!(tree.is_named);
    assert_eq!(tree.text, None);
    assert_eq!(tree.start, PatternPos { line: 0, column: 0 });
    assert_eq!(tree.end, PatternPos { line: 0, column: 9 });
    assert_eq!(tree.children.len(), 3);

    let pair = &tree.children[1];
    assert_eq!(pair.kind, "pair");
    assert_eq!(pair.pattern, Some(PatternKind::Internal));
    assert_eq!(pair.text, None);
    assert_eq!(pair.children.len(), 3);

    let key = &pair.children[0];
    assert_eq!(key.kind, "string");
    assert_eq!(key.pattern, Some(PatternKind::Terminal));
    assert_eq!(key.text, Some("\"a\"".to_string()));
    assert!(key.is_named);
    assert!(key.children.is_empty());

    let value = &pair.children[2];
    assert_eq!(value.kind, "number");
    assert_eq!(value.pattern, Some(PatternKind::MetaVar));
    assert_eq!(value.text, Some("42".to_string()));
    assert!(value.is_named);
    assert!(value.children.is_empty());
    assert_eq!(value.start, PatternPos { line: 0, column: 6 });
    assert_eq!(value.end, PatternPos { line: 0, column: 8 });
}

#[test]
fn whole_dump_of_a_terminal_is_exact() {
    let node = leaf(":", false, ":", 3, 4, 5);
    let tree = dump_pattern_node(&node, &PatternNode::Terminal { is_named: false }, '$');
    let expected = PatternTree {
        kind: ":".to_string(),
        start: PatternPos { line: 3, column: 4 },
        end: PatternPos { line: 3, column: 5 },
        is_named: false,
        children: vec![],
        text: Some(":".to_string()),
        pattern: Some(PatternKind::Terminal),
    };
    assert_eq!(tree, expected);
}

#[test]
fn meta_var_text_without_expando_is_kept() {
    let node = leaf("identifier", true, "foo_bar", 0, 0, 7);
    let tree = dump_pattern_node(&node, &PatternNode::MetaVar, '#');
    assert_eq!(tree.text, Some("foo_bar".to_string()));
}

#[test]
fn meta_var_text_has_its_expando_undone() {
    let node = leaf("identifier", true, "#VALUE", 0, 0, 6);
    let tree = dump_pattern_node(&node, &PatternNode::MetaVar, '#');
    assert_eq!(tree.text, Some("$VALUE".to_string()));
    assert_eq!(tree.pattern, Some(PatternKind::MetaVar));
}

#[test]
fn meta_var_is_named_whatever_the_concrete_node_says() {
    let node = leaf("µA", false, "µA", 0, 0, 2);
    let tree = dump_pattern_node(&node, &PatternNode::MetaVar, 'µ');
    assert!(tree.is_named);
    assert_eq!(tree.text, Some("$A".to_string()));
}

#[test]
fn meta_var_hides_the_children_of_its_node() {
    let tree = dump_pattern_node(&json_object(), &PatternNode::MetaVar, '$');
    assert!(tree.children.is_empty());
    assert_eq!(tree.text, Some("{\"a\": 42}".to_string()));
    assert_eq!(tree.kind, "object");
}

#[test]
fn terminal_text_keeps_the_expando_character() {
    let node = leaf("comment", true, "# not a #VAR", 0, 0, 12);
    let tree = dump_pattern_node(&node, &PatternNode::Terminal { is_named: true }, '#');
    assert_eq!(tree.text, Some("# not a #VAR".to_string()));
}

#[test]
fn undo_reaches_meta_vars_only_within_one_dump() {
    let node = branch(
        "call",
        "#F(#)",
        0,
        5,
        vec![leaf("identifier", true, "#F", 0, 0, 2), leaf("hash", false, "#", 0, 3, 4)],
    );
    let pattern = PatternNode::Internal {
        children: vec![PatternNode::MetaVar, PatternNode::Terminal { is_named: false }],
    };
    let tree = dump_pattern_node(&node, &pattern, '#');
    assert_eq!(tree.children[0].text, Some("$F".to_string()));
    assert_eq!(tree.children[1].text, Some("#".to_string()));
}

#[test]
fn terminal_takes_its_named_flag_from_the_pattern() {
    let named_node = leaf("number", true, "1", 0, 0, 1);
    let tree = dump_pattern_node(&named_node, &PatternNode::Terminal { is_named: false }, '$');
    assert!(!tree.is_named);
    let anonymous_node = leaf("+", false, "+", 0, 0, 1);
    let tree = dump_pattern_node(&anonymous_node, &PatternNode::Terminal { is_named: true }, '$');
    assert!(tree.is_named);
}

#[test]
fn missing_node_is_labelled_and_its_siblings_are_not() {
    let mut inserted = leaf(";", false, "", 0, 5, 5);
    inserted.is_missing = true;
    let node = branch(
        "statement",
        "a = 1",
        0,
        5,
        vec![leaf("identifier", true, "a", 0, 0, 1), inserted],
    );
    let pattern = PatternNode::Internal {
        children: vec![PatternNode::MetaVar, PatternNode::Terminal { is_named: false }],
    };
    let tree = dump_pattern_node(&node, &pattern, '$');
    assert_eq!(tree.kind, "statement");
    assert_eq!(tree.children[0].kind, "identifier");
    assert_eq!(tree.children[1].kind, "MISSING ;");
    assert_eq!(tree.children[1].text, Some(String::new()));
}

#[test]
fn missing_label_applies_to_every_shape() {
    let mut node = json_object();
    node.is_missing = true;
    assert_eq!(dump_pattern_node(&node, &PatternNode::MetaVar, '$').kind, "MISSING object");
    assert_eq!(
        dump_pattern_node(&node, &PatternNode::Terminal { is_named: true }, '$').kind,
        "MISSING object"
    );
    assert_eq!(dump_pattern_node(&node, &json_pattern(), '$').kind, "MISSING object");
}

#[test]
fn congruent_children_are_all_dumped() {
    let node = json_object();
    let tree = dump_pattern_node(&node, &json_pattern(), '$');
    assert_eq!(tree.children.len(), node.children.len());
    assert_eq!(tree.children[1].children.len(), node.children[1].children.len());
}

#[test]
fn surplus_pattern_children_are_dropped() {
    let node = branch("list", "a", 0, 1, vec![leaf("identifier", true, "a", 0, 0, 1)]);
    let pattern = PatternNode::Internal {
        children: vec![
            PatternNode::MetaVar,
            PatternNode::Terminal { is_named: false },
            PatternNode::MetaVar,
        ],
    };
    let tree = dump_pattern_node(&node, &pattern, '$');
    assert_eq!(tree.children.len(), 1);
    assert_eq!(tree.children[0].pattern, Some(PatternKind::MetaVar));
}

#[test]
fn surplus_concrete_children_are_dropped() {
    let pattern = PatternNode::Internal { children: vec![PatternNode::Terminal { is_named: false }] };
    let tree = dump_pattern_node(&json_object(), &pattern, '$');
    assert_eq!(tree.children.len(), 1);
    assert_eq!(tree.children[0].kind, "{");
}

#[test]
fn compound_without_children_is_an_empty_compound() {
    let tree = dump_pattern_node(&json_object(), &PatternNode::Internal { children: vec![] }, '$');
    assert!(tree.children.is_empty());
    assert_eq!(tree.text, None);
    assert!(tree.is_named);
    assert_eq!(tree.pattern, Some(PatternKind::Internal));
}

#[test]
fn positions_come_from_the_concrete_node() {
    let node = ConcreteNode {
        kind: "number".to_string(),
        is_named: true,
        is_missing: false,
        start: Point { row: 7, column: 11 },
        end: Point { row: 9, column: 2 },
        text: "1".to_string(),
        children: vec![],
    };
    let tree = dump_pattern_node(&node, &PatternNode::MetaVar, '$');
    assert_eq!(tree.start, PatternPos { line: 7, column: 11 });
    assert_eq!(tree.end, PatternPos { line: 9, column: 2 });
}

#[test]
fn point_becomes_a_position() {
    let pos = PatternPos::from(Point { row: 4294967295, column: 0 });
    assert_eq!(pos, PatternPos { line: 4294967295, column: 0 });
    let pos: PatternPos = Point { row: 2, column: 5 }.into();
    assert_eq!(pos.line, 2);
    assert_eq!(pos.column, 5);
}

#[test]
fn undo_expando_replaces_every_occurrence() {
    assert_eq!(undo_expando("##A #B c", '#'), "$$A $B c");
    assert_eq!(undo_expando("", '#'), "");
    assert_eq!(undo_expando("plain", '#'), "plain");
    assert_eq!(undo_expando("$A", '$'), "$A");
    assert_eq!(undo_expando("µµµARGS", 'µ'), "$$$ARGS");
}

#[test]
fn kind_label_marks_missing_nodes() {
    assert_eq!(kind_label("identifier", false), "identifier");
    assert_eq!(kind_label("identifier", true), "MISSING identifier");
    assert_eq!(kind_label("", true), "MISSING ");
}
