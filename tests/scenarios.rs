use rust_code_analysis::{
    extract_vue_sections, get_vue_metrics, script_language, ScriptLanguage, get_spaces, Field, FuncSpace, Getter, Javascript, JavascriptCode, Lang, Node, Python,
    PythonCode, SpaceKind, Tree,
};

fn field_of(name: Option<&str>) -> Option<Field> {
    match name {
        Some("name") => Some(Field::Name),
        Some("key") => Some(Field::Key),
        Some("declarator") => Some(Field::Declarator),
        Some("type") => Some(Field::Type),
        _ => None,
    }
}

fn convert(syntax: &tree_sitter::Tree) -> Tree {
    let mut nodes: Vec<Node> = Vec::new();
    let mut stack = vec![(syntax.root_node(), None, None)];
    while let Some((n, parent, field)) = stack.pop() {
        let idx = nodes.len();
        nodes.push(Node {
            kind_id: n.kind_id(),
            start_byte: n.start_byte(),
            end_byte: n.end_byte(),
            start_row: n.start_position().row,
            end_row: n.end_position().row,
            parent,
            field,
            children: Vec::new(),
        });
        if let Some(p) = parent {
            let v: &mut Node = &mut nodes[p];
            v.children.push(idx);
        }
        let count = n.child_count() as u32;
        for i in (0..count).rev() {
            if let Some(c) = n.child(i) {
                stack.push((c, Some(idx), field_of(n.field_name_for_child(i))));
            }
        }
    }
    Tree { nodes }
}

fn parse(lang: Lang, code: &str) -> Tree {
    let mut parser = tree_sitter::Parser::new();
    let language: tree_sitter::Language = match lang {
        Lang::Python => tree_sitter_python::LANGUAGE.into(),
        Lang::Javascript => tree_sitter_javascript::LANGUAGE.into(),
        Lang::Typescript => tree_sitter_typescript::LANGUAGE_TYPESCRIPT.into(),
        Lang::Rust => tree_sitter_rust::LANGUAGE.into(),
        Lang::Cpp => tree_sitter_cpp::LANGUAGE.into(),
        Lang::Java => tree_sitter_java::LANGUAGE.into(),
        _ => tree_sitter_html::LANGUAGE.into(),
    };
    parser.set_language(&language).unwrap();
    convert(&parser.parse(code.as_bytes(), None).unwrap())
}

fn analyze(lang: Lang, code: &str) -> FuncSpace {
    let tree = parse(lang, code);
    get_spaces(lang, &tree, code.as_bytes(), None)
}

fn count<T: AsRef<[u8]>>(list: &[T], t: &str) -> usize {
    list.iter().filter(|x| x.as_ref() == t.as_bytes()).count()
}

#[test]
fn python_single_function() {
    let root = analyze(Lang::Python, "def f(a, b): return a + b\n");
    assert_eq!(root.kind, SpaceKind::Unit);
    assert_eq!(root.spaces.len(), 1);
    let f = &root.spaces[0];
    assert_eq!(f.kind, SpaceKind::Function);
    assert_eq!(f.name.as_deref(), Some("f"));
    assert_eq!(root.own.nom, 1);
    let h = &f.own.halstead;
    assert!(h.operators.len() >= 2);
    assert_eq!(count(&h.operators, "return"), 1);
    assert_eq!(count(&h.operators, "+"), 1);
    assert_eq!(count(&h.operands, "a"), 1);
    assert_eq!(count(&h.operands, "b"), 1);
    // a, b in the parameters and in the sum, f as the name
    assert_eq!(h.total_operands, 5);
    assert_eq!(h.operands.len(), 3);
}

#[test]
fn javascript_function_takes_variable_name() {
    let root = analyze(Lang::Javascript, "var g = function() {}\n");
    assert_eq!(root.spaces.len(), 1);
    assert_eq!(root.spaces[0].kind, SpaceKind::Function);
    assert_eq!(root.spaces[0].name.as_deref(), Some("g"));
    let root = analyze(Lang::Javascript, "x = { k: function() {} }\n");
    assert_eq!(root.spaces[0].name.as_deref(), Some("k"));
    let root = analyze(Lang::Javascript, "(function() {})()\n");
    assert_eq!(root.spaces[0].name.as_deref(), Some("<anonymous>"));
}

#[test]
fn python_docstring_is_not_an_operand() {
    let root = analyze(Lang::Python, "def f():\n    \"doc\"\n    g(\"arg\")\n");
    let h = &root.spaces[0].own.halstead;
    assert_eq!(count(&h.operands, "\"doc\""), 0);
    assert_eq!(count(&h.operands, "\"arg\""), 1);
}

#[test]
fn python_nesting_three_deep() {
    let code = "class A:\n    class B:\n        def f(x):\n            return x\n";
    let root = analyze(Lang::Python, code);
    let a = &root.spaces[0];
    let b = &a.spaces[0];
    let f = &b.spaces[0];
    assert_eq!(a.kind, SpaceKind::Class);
    assert_eq!(b.kind, SpaceKind::Class);
    assert_eq!(f.kind, SpaceKind::Function);
    assert_eq!(f.start_line, 3);
    assert_eq!(f.end_line, 4);
    assert_eq!(count(&f.own.halstead.operands, "x"), 1);
    assert_eq!(count(&b.own.halstead.operands, "x"), 0);
    assert_eq!(count(&a.own.halstead.operands, "x"), 0);
    assert_eq!(count(&b.metrics.halstead.operands, "x"), 1);
    assert_eq!(count(&a.metrics.halstead.operands, "x"), 1);
    assert_eq!(b.own.nom, 1);
    assert_eq!(a.own.nom, 0);
}

#[test]
fn kind_ids_out_of_range_are_unknown() {
    assert_eq!(Python::from_u16(u16::MAX), Python::Error);
    assert_eq!(Javascript::from_u16(60000), Javascript::Error);
    let mut tree = parse(Lang::Python, "def f(a): return a\ndef g(b): return b\n");
    let first_fn = tree.nodes.iter().position(|n| Python::from_u16(n.kind_id) == Python::FunctionDefinition).unwrap();
    tree.nodes[first_fn].kind_id = 65000;
    assert_eq!(PythonCode::get_space_kind(&tree, first_fn), SpaceKind::Unknown);
    let root = get_spaces(Lang::Python, &tree, b"def f(a): return a\ndef g(b): return b\n", None);
    assert_eq!(root.spaces.len(), 1);
    assert_eq!(root.spaces[0].name.as_deref(), Some("g"));
}

#[test]
fn javascript_brackets_count_once() {
    let root = analyze(Lang::Javascript, "f(a); f(b);\n");
    let h = &root.own.halstead;
    assert_eq!(count(&h.operators, "()"), 1);
    assert_eq!(count(&h.operators, ")"), 0);
    assert_eq!(JavascriptCode::get_operator_id_as_str(Javascript::LBRACE as u16), "{}");
}

#[test]
fn analysis_is_repeatable() {
    let code = "def f(a):\n    return a * 2\n";
    let a = analyze(Lang::Python, code);
    let b = analyze(Lang::Python, code);
    assert_eq!(format!("{:?}", a), format!("{:?}", b));
}

#[test]
fn python_table_text() {
    assert_eq!(Python::FunctionDefinition.as_str(), "function_definition");
    assert_eq!(PythonCode::get_operator_id_as_str(Python::from_u16(1) as u16), "identifier");
}

#[test]
fn rust_impl_is_named_by_its_type() {
    let root = analyze(Lang::Rust, "impl Foo {\n    fn bar(&self) -> u8 { 1 }\n}\n");
    assert_eq!(root.spaces.len(), 1);
    let imp = &root.spaces[0];
    assert_eq!(imp.kind, SpaceKind::Impl);
    assert_eq!(imp.name.as_deref(), Some("Foo"));
    assert_eq!(imp.spaces[0].kind, SpaceKind::Function);
    assert_eq!(imp.spaces[0].name.as_deref(), Some("bar"));
    assert_eq!(imp.own.nom, 1);
}

#[test]
fn cpp_function_names_come_from_the_declarator() {
    let root = analyze(Lang::Cpp, "int main() { return 0; }\nvoid A::f() {}\n");
    assert_eq!(root.spaces.len(), 2);
    assert_eq!(root.spaces[0].name.as_deref(), Some("main"));
    assert_eq!(root.spaces[1].name.as_deref(), Some("A::f"));
    let root = analyze(Lang::Cpp, "namespace n { struct S { int x; }; }\n");
    assert_eq!(root.spaces[0].kind, SpaceKind::Namespace);
    assert_eq!(root.spaces[0].name.as_deref(), Some("n"));
    assert_eq!(root.spaces[0].spaces[0].kind, SpaceKind::Struct);
}

#[test]
fn java_class_with_method() {
    let root = analyze(Lang::Java, "class A { void m() { return; } }\n");
    let a = &root.spaces[0];
    assert_eq!(a.kind, SpaceKind::Class);
    assert_eq!(a.name.as_deref(), Some("A"));
    assert_eq!(a.spaces[0].name.as_deref(), Some("m"));
    assert_eq!(count(&a.spaces[0].own.halstead.operators, "void"), 1);
}

#[test]
fn typescript_interface_and_arrow_function() {
    let root = analyze(Lang::Typescript, "interface I { x: number }\nconst h = () => 1;\n");
    assert_eq!(root.spaces[0].kind, SpaceKind::Interface);
    assert_eq!(root.spaces[1].kind, SpaceKind::Function);
    assert_eq!(root.spaces[1].name.as_deref(), Some("h"));
}

fn vue(source: &str) -> FuncSpace {
    let sections = extract_vue_sections(source.as_bytes());
    let script = sections.script.map(|sec| {
        let lang = match script_language(&sec.lang) {
            ScriptLanguage::Typescript => Lang::Typescript,
            ScriptLanguage::Mozjs => Lang::Javascript,
        };
        let code = String::from_utf8(sec.content.clone()).unwrap();
        analyze(lang, &code)
    });
    get_vue_metrics(source.as_bytes(), Some("c.vue".to_string()), script).unwrap()
}

#[test]
fn vue_script_operands_and_named_function() {
    let u = vue("<template><p/></template>\n<script>var g = function() {}; x; x;</script>\n");
    assert_eq!(u.kind, SpaceKind::Unit);
    assert_eq!(u.end_line, 3);
    assert_eq!(u.spaces.len(), 1);
    assert_eq!(u.spaces[0].name.as_deref(), Some("g"));
    assert_eq!(count(&u.metrics.halstead.operands, "x"), 1);
    assert_eq!(u.own.nom, 1);
}

#[test]
fn vue_typescript_script_has_interface() {
    let u = vue("<script lang=\"ts\">interface I { x: number }</script>");
    assert_eq!(u.spaces.len(), 1);
    assert_eq!(u.spaces[0].kind, SpaceKind::Interface);
    assert_eq!(u.spaces[0].name.as_deref(), Some("I"));
}

#[test]
fn python_brackets_and_java_booleans() {
    assert_eq!(PythonCode::get_operator_id_as_str(Python::LPAREN as u16), "()");
    let root = analyze(Lang::Java, "class A { boolean b = true; }\n");
    assert_eq!(count(&root.spaces[0].own.halstead.operands, "true"), 1);
}

#[test]
fn undecodable_name_is_anonymous() {
    let code = b"def \xff(): pass\n".to_vec();
    let tree = parse(Lang::Python, "def f(): pass\n");
    let f = tree.nodes.iter().position(|n| Python::from_u16(n.kind_id) == Python::FunctionDefinition).unwrap();
    assert_eq!(PythonCode::get_func_space_name(&tree, f, &code).as_deref(), Some("<anonymous>"));
}

#[test]
fn function_name_agrees_with_space_name() {
    let src = "var g = function() {}";
    let tree = parse(Lang::Javascript, src);
    let f = tree.nodes.iter().position(|n| Javascript::from_u16(n.kind_id) == Javascript::FunctionExpression).unwrap();
    assert_eq!(JavascriptCode::get_func_name(&tree, f, src.as_bytes()).as_deref(), Some("g"));
}
