use rust_code_analysis::{
    get_function_spaces, get_vue_metrics, script_language, CodeMetrics, Field,
    FuncSpace, Getter, HalsteadType, Html, HtmlCode, Node, PreprocCode, ScriptLanguage, SpaceKind,
    Tree,
};

fn node(kind: u16, bytes: (usize, usize), rows: (usize, usize), parent: Option<usize>, children: Vec<usize>) -> Node {
    Node {
        kind_id: kind,
        start_byte: bytes.0,
        end_byte: bytes.1,
        start_row: rows.0,
        end_row: rows.1,
        parent,
        field: None,
        children,
    }
}

// <p>x</p>\n<script>a</script>\n<style>b</style>\n
fn html_tree() -> (Tree, Vec<u8>) {
    let code = b"<p>x</p>\n<script>a</script>\n<style>b</style>\n".to_vec();
    let nodes = vec![
        node(25, (0, 44), (0, 3), None, vec![1, 2, 4]),
        node(28, (0, 8), (0, 0), Some(0), vec![]),
        node(29, (9, 26), (1, 1), Some(0), vec![3]),
        node(23, (17, 18), (1, 1), Some(2), vec![]),
        node(30, (27, 43), (2, 2), Some(0), vec![5]),
        node(23, (34, 35), (2, 2), Some(4), vec![]),
    ];
    (Tree { nodes }, code)
}

#[test]
fn html_document_has_one_unit_with_script_and_style_functions() {
    let (tree, code) = html_tree();
    let root = get_function_spaces::<HtmlCode>(&tree, &code, Some("page.html".to_string()));
    assert_eq!(root.kind, SpaceKind::Unit);
    assert_eq!(root.start_line, 1);
    assert_eq!(root.end_line, 4);
    assert_eq!(root.name.as_deref(), Some("page.html"));
    assert_eq!(root.spaces.len(), 2);
    assert_eq!(root.spaces[0].kind, SpaceKind::Function);
    assert_eq!(root.spaces[0].start_line, 2);
    assert_eq!(root.spaces[1].start_line, 3);
    assert_eq!(root.spaces[0].name.as_deref(), Some("<anonymous>"));
    assert_eq!(root.own.nom, 2);
    assert_eq!(root.metrics.nom, 2);
    assert!(root.spaces.iter().all(|s| s.kind != SpaceKind::Unit));
}

#[test]
fn unknown_kind_id_counts_nothing_and_siblings_are_visited() {
    let (mut tree, code) = html_tree();
    tree.nodes[1].kind_id = 9999;
    assert_eq!(Html::from_u16(9999), Html::Error);
    assert_eq!(HtmlCode::get_space_kind(&tree, 1), SpaceKind::Unknown);
    let root = get_function_spaces::<HtmlCode>(&tree, &code, None);
    assert_eq!(root.spaces.len(), 2);
    assert_eq!(root.own.nom, 2);
    assert_eq!(root.metrics.halstead.total_operands, 0);
    assert_eq!(root.metrics.halstead.total_operators, 0);
}

#[test]
fn name_comes_from_name_field() {
    let code = b"def f".to_vec();
    let mut n1 = node(7, (4, 5), (0, 0), Some(0), vec![]);
    n1.field = Some(Field::Name);
    let tree = Tree { nodes: vec![node(1, (0, 5), (0, 0), None, vec![1]), n1] };
    assert_eq!(HtmlCode::get_func_space_name(&tree, 0, &code).as_deref(), Some("f"));
    assert_eq!(HtmlCode::get_func_name(&tree, 0, &code).as_deref(), Some("f"));
    assert_eq!(HtmlCode::get_func_space_name(&tree, 1, &code).as_deref(), Some("<anonymous>"));
    let bad = vec![0xffu8, 0xfe, 0xfd, 0xfc, 0xfb];
    assert_eq!(HtmlCode::get_func_space_name(&tree, 0, &bad).as_deref(), Some("<anonymous>"));
}

#[test]
fn default_answers_count_nothing() {
    let (tree, _) = html_tree();
    assert_eq!(PreprocCode::get_space_kind(&tree, 0), SpaceKind::Unknown);
    assert_eq!(PreprocCode::get_op_type(&tree, 0), HalsteadType::Unknown);
    assert_eq!(PreprocCode::get_operator_id_as_str(3), "");
    assert_eq!(HtmlCode::get_space_kind(&tree, 0), SpaceKind::Unit);
    assert_eq!(HtmlCode::get_space_kind(&tree, 4), SpaceKind::Function);
}

#[test]
fn html_kind_table() {
    assert_eq!(Html::from_u16(0), Html::End);
    assert_eq!(Html::from_u16(29), Html::ScriptElement);
    assert_eq!(Html::from_u16(41), Html::Error);
    assert_eq!(Html::from_u16(42), Html::Error);
    assert_eq!(Html::from(25u16), Html::Document);
    assert_eq!(Html::Document.as_str(), "document");
    assert_eq!(Html::LTSLASH.as_str(), "</");
    assert_eq!(Html::Error.as_str(), "ERROR");
    assert_eq!(Html::StartTag2.as_str(), "start_tag");
}

#[test]
fn repeated_operand_is_one_distinct_operand() {
    let mut m = CodeMetrics::new();
    m.add_operand(b"a");
    m.add_operand(b"a");
    m.add_operand(b"b");
    assert_eq!(m.halstead.total_operands, 3);
    assert_eq!(m.halstead.operands.len(), 2);
    m.add_operator("()");
    m.add_operator("()");
    assert_eq!(m.halstead.total_operators, 2);
    assert_eq!(m.halstead.operators.len(), 1);
}

#[test]
fn merge_unites_and_adds() {
    let mut a = CodeMetrics::new();
    a.add_operand(b"x");
    a.add_operator("+");
    let mut b = CodeMetrics::new();
    b.add_operand(b"x");
    b.add_operand(b"y");
    b.add_function();
    a.merge(&b);
    assert_eq!(a.halstead.operands.len(), 2);
    assert_eq!(a.halstead.total_operands, 3);
    assert_eq!(a.halstead.operators.len(), 1);
    assert_eq!(a.nom, 1);
    let before = a.clone();
    a.merge(&CodeMetrics::new());
    assert_eq!(a.halstead.operands, before.halstead.operands);
    assert_eq!(a.halstead.total_operands, before.halstead.total_operands);
    assert_eq!(a.nom, before.nom);
}

#[test]
fn same_input_gives_same_tree() {
    let (tree, code) = html_tree();
    let a = get_function_spaces::<HtmlCode>(&tree, &code, None);
    let b = get_function_spaces::<HtmlCode>(&tree, &code, None);
    assert_eq!(format!("{:?}", a), format!("{:?}", b));
}

#[test]
fn vue_metrics_take_script_spaces() {
    let src = b"<template>\n<p/>\n</template>\n<script>\nv\n</script>\n";
    let (tree, code) = html_tree();
    let script: FuncSpace = get_function_spaces::<HtmlCode>(&tree, &code, None);
    let u = get_vue_metrics(src, Some("c.vue".to_string()), Some(script)).unwrap();
    assert_eq!(u.kind, SpaceKind::Unit);
    assert_eq!(u.end_line, 7);
    assert_eq!(u.name.as_deref(), Some("c.vue"));
    assert_eq!(u.spaces.len(), 2);
    assert_eq!(u.own.nom, 2);
    let e = get_vue_metrics(b"", None, None).unwrap();
    assert_eq!(e.end_line, 1);
    assert!(e.spaces.is_empty());
}

#[test]
fn section_languages() {
    assert_eq!(script_language(&Some("ts".to_string())), ScriptLanguage::Typescript);
    assert_eq!(script_language(&Some("typescript".to_string())), ScriptLanguage::Typescript);
    assert_eq!(script_language(&Some("js".to_string())), ScriptLanguage::Mozjs);
    assert_eq!(script_language(&None), ScriptLanguage::Mozjs);
}
