use vstd::prelude::*;
use vstd::slice::slice_subrange;

use crate::html::Html;
use crate::javascript::Javascript;
use crate::node::{Field, Tree};
use crate::python::Python;
use crate::spaces::{HalsteadType, SpaceKind};

verus! {

/// The name reported for a space whose construct declares none.
pub open spec fn anonymous() -> Seq<char> {
    "<anonymous>"@
}

/// The text that bytes encode as UTF-8, or `None` where they are not valid UTF-8.
pub uninterp spec fn utf8_decode(b: Seq<u8>) -> Option<Seq<char>>;

/// Relies on `std::str::from_utf8`: it fails exactly on bytes that are not valid UTF-8,
/// and its result depends on the bytes alone.
#[verifier::external_body]
fn decode_utf8(b: &[u8]) -> (r: Option<String>)
    ensures
        r is Some <==> utf8_decode(b@) is Some,
        r matches Some(t) ==> t@ == utf8_decode(b@)->0,
{
    match std::str::from_utf8(b) {
        Ok(t) => Some(t.to_owned()),
        Err(_) => None,
    }
}

/// The text of an optional name.
pub open spec fn name_view(r: Option<String>) -> Option<Seq<char>> {
    match r {
        Some(t) => Some(t@),
        None => None,
    }
}

/// The text of node `c` in `code`, decoded; the anonymous name where it is not valid UTF-8.
pub open spec fn node_text(tree: Tree, c: int, code: Seq<u8>) -> Option<Seq<char>> {
    match utf8_decode(code.subrange(tree.nodes@[c].start_byte as int, tree.nodes@[c].end_byte as int)) {
        Some(t) => Some(t),
        None => Some(anonymous()),
    }
}

/// The decoded text of the first child of `node` that fills field `f`; `None` where no
/// child fills it.
pub open spec fn field_text(tree: Tree, node: int, f: Field, code: Seq<u8>) -> Option<Option<Seq<char>>> {
    if exists|k: int| tree.is_field_child(node, f, k) {
        let k = choose|k: int| tree.is_field_child(node, f, k);
        Some(node_text(tree, tree.nodes@[node].children@[k] as int, code))
    } else {
        None
    }
}

/// The first child of `node` that fills field `f`, if any.
pub open spec fn field_child(tree: Tree, node: int, f: Field) -> Option<int> {
    if exists|k: int| tree.is_field_child(node, f, k) {
        let k = choose|k: int| tree.is_field_child(node, f, k);
        Some(tree.nodes@[node].children@[k] as int)
    } else {
        None
    }
}

/// The first child of `node` that fills field `f`, if any.
pub fn child_in_field(tree: &Tree, node: usize, f: Field) -> (r: Option<usize>)
    requires
        tree.wf(),
        node < tree.nodes@.len(),
    ensures
        match r {
            Some(c) => field_child(*tree, node as int, f) == Some(c as int) && (c as int) < tree.nodes@.len(),
            None => field_child(*tree, node as int, f) is None,
        },
{
    let r = tree.child_by_field(node, f);
    if let Some(c) = r {
        proof {
            let k = choose|k: int| tree.is_field_child(node as int, f, k);
            let k0 = choose|k0: int|
                tree.is_field_child(node as int, f, k0) && c == tree.nodes@[node as int].children@[k0];
            if k < k0 {
                assert(tree.nodes@[tree.nodes@[node as int].children@[k] as int].field != Some(f));
            }
            if k0 < k {
                assert(tree.nodes@[tree.nodes@[node as int].children@[k0] as int].field != Some(f));
            }
        }
    }
    r
}

/// The decoded text of node `c`.
pub fn text_of_node(tree: &Tree, c: usize, code: &[u8]) -> (r: Option<String>)
    requires
        tree.wf(),
        c < tree.nodes@.len(),
        tree.fits(code@.len()),
    ensures
        name_view(r) == node_text(*tree, c as int, code@),
{
    let n = &tree.nodes[c];
    match decode_utf8(slice_subrange(code, n.start_byte, n.end_byte)) {
        Some(t) => Some(t),
        None => Some("<anonymous>".to_owned()),
    }
}

/// The name that a construct declares in its `name` field; the anonymous name where it
/// has no such field.
pub open spec fn field_name(tree: Tree, node: int, code: Seq<u8>) -> Option<Seq<char>> {
    match field_text(tree, node, Field::Name, code) {
        Some(t) => t,
        None => Some(anonymous()),
    }
}

/// The text of an optional field text.
pub open spec fn field_view(r: Option<Option<String>>) -> Option<Option<Seq<char>>> {
    match r {
        Some(t) => Some(name_view(t)),
        None => None,
    }
}

/// The decoded text of the first child of `node` that fills field `f`, if one does.
pub fn text_of_field(tree: &Tree, node: usize, f: Field, code: &[u8]) -> (r: Option<Option<String>>)
    requires
        tree.wf(),
        node < tree.nodes@.len(),
        tree.fits(code@.len()),
    ensures
        field_view(r) == field_text(*tree, node as int, f, code@),
{
    match tree.child_by_field(node, f) {
        Some(c) => {
            let r = text_of_node(tree, c, code);
            proof {
                let k = choose|k: int| tree.is_field_child(node as int, f, k);
                let k0 = choose|k0: int|
                    tree.is_field_child(node as int, f, k0) && c == tree.nodes@[node as int].children@[k0];
                if k < k0 {
                    assert(tree.nodes@[tree.nodes@[node as int].children@[k] as int].field != Some(f));
                }
                if k0 < k {
                    assert(tree.nodes@[tree.nodes@[node as int].children@[k0] as int].field != Some(f));
                }
            }
            Some(r)
        },
        None => None,
    }
}

/// The text of the `name` field of `node`, or the anonymous name.
pub fn name_from_field(tree: &Tree, node: usize, code: &[u8]) -> (r: Option<String>)
    requires
        tree.wf(),
        node < tree.nodes@.len(),
        tree.fits(code@.len()),
    ensures
        name_view(r) == field_name(*tree, node as int, code@),
{
    match text_of_field(tree, node, Field::Name, code) {
        Some(t) => t,
        None => Some("<anonymous>".to_owned()),
    }
}

/// The four questions that a language answers about a node of its grammar, each with the
/// spec function that gives its answer.
pub trait Getter {
    /// The kind of space that `node` opens: `Unknown` where it opens none.
    spec fn space_kind_of(tree: Tree, node: int) -> SpaceKind;

    /// How `node` counts in the Halstead measures.
    spec fn op_type_of(tree: Tree, node: int) -> HalsteadType;

    /// The text under which an operator of kind `id` counts as a distinct operator.
    spec fn operator_text_of(id: u16) -> Seq<char>;

    /// The name of the space that `node` opens.
    spec fn name_of(tree: Tree, node: int, code: Seq<u8>) -> Option<Seq<char>>;

    /// The name of the function or class that `node` opens.
    fn get_func_name(tree: &Tree, node: usize, code: &[u8]) -> (r: Option<String>)
        requires
            tree.wf(),
            node < tree.nodes@.len(),
            tree.fits(code@.len()),
        ensures
            name_view(r) == Self::name_of(*tree, node as int, code@),
    {
        Self::get_func_space_name(tree, node, code)
    }

    /// The name of the space that `node` opens.
    fn get_func_space_name(tree: &Tree, node: usize, code: &[u8]) -> (r: Option<String>)
        requires
            tree.wf(),
            node < tree.nodes@.len(),
            tree.fits(code@.len()),
        ensures
            name_view(r) == Self::name_of(*tree, node as int, code@),
    ;

    /// The kind of space that `node` opens.
    fn get_space_kind(tree: &Tree, node: usize) -> (r: SpaceKind)
        requires
            tree.wf(),
            node < tree.nodes@.len(),
        ensures
            r == Self::space_kind_of(*tree, node as int),
    ;

    /// How `node` counts in the Halstead measures.
    fn get_op_type(tree: &Tree, node: usize) -> (r: HalsteadType)
        requires
            tree.wf(),
            node < tree.nodes@.len(),
        ensures
            r == Self::op_type_of(*tree, node as int),
    ;

    /// The text under which an operator of kind `id` counts as a distinct operator.
    fn get_operator_id_as_str(id: u16) -> (r: &'static str)
        ensures
            r@ == Self::operator_text_of(id),
    ;
}

/// The space kind of an HTML node: the document is the unit, script and style elements
/// are functions.
pub open spec fn html_space_kind(k: Html) -> SpaceKind {
    match k {
        Html::Document => SpaceKind::Unit,
        Html::ScriptElement | Html::StyleElement => SpaceKind::Function,
        _ => SpaceKind::Unknown,
    }
}

/// The HTML grammar.
pub struct HtmlCode;

impl Getter for HtmlCode {
    open spec fn space_kind_of(tree: Tree, node: int) -> SpaceKind {
        html_space_kind(Html::spec_from_id(tree.nodes@[node].kind_id))
    }

    open spec fn op_type_of(tree: Tree, node: int) -> HalsteadType {
        HalsteadType::Unknown
    }

    open spec fn operator_text_of(id: u16) -> Seq<char> {
        ""@
    }

    open spec fn name_of(tree: Tree, node: int, code: Seq<u8>) -> Option<Seq<char>> {
        field_name(tree, node, code)
    }

    fn get_func_space_name(tree: &Tree, node: usize, code: &[u8]) -> (r: Option<String>) {
        name_from_field(tree, node, code)
    }

    fn get_space_kind(tree: &Tree, node: usize) -> (r: SpaceKind)
        ensures
            r == html_space_kind(Html::spec_from_id(tree.nodes@[node as int].kind_id)),
    {
        match Html::from_u16(tree.nodes[node].kind_id) {
            Html::Document => SpaceKind::Unit,
            Html::ScriptElement | Html::StyleElement => SpaceKind::Function,
            _ => SpaceKind::Unknown,
        }
    }

    fn get_op_type(tree: &Tree, node: usize) -> (r: HalsteadType) {
        HalsteadType::Unknown
    }

    fn get_operator_id_as_str(id: u16) -> (r: &'static str) {
        ""
    }
}

/// Python kinds counted as Halstead operators: keywords, operator tokens and separators.
pub open spec fn python_operator(k: Python) -> bool {
    match k {
        Python::Import | Python::DOT | Python::From | Python::COMMA | Python::As | Python::STAR
        | Python::GTGT | Python::Assert | Python::COLONEQ | Python::Return | Python::Def
        | Python::Del | Python::Raise | Python::Pass | Python::Break | Python::Continue
        | Python::If | Python::Elif | Python::Else | Python::Async | Python::For | Python::In
        | Python::While | Python::Try | Python::Except | Python::Finally | Python::With
        | Python::DASHGT | Python::EQ | Python::Global | Python::Exec | Python::AT
        | Python::Not | Python::And | Python::Or | Python::PLUS | Python::DASH | Python::SLASH
        | Python::PERCENT | Python::SLASHSLASH | Python::STARSTAR | Python::PIPE | Python::AMP
        | Python::CARET | Python::LTLT | Python::TILDE | Python::LT | Python::LTEQ
        | Python::EQEQ | Python::BANGEQ | Python::GTEQ | Python::GT | Python::LTGT | Python::Is
        | Python::PLUSEQ | Python::DASHEQ | Python::STAREQ | Python::SLASHEQ | Python::ATEQ
        | Python::SLASHSLASHEQ | Python::PERCENTEQ | Python::STARSTAREQ | Python::GTGTEQ
        | Python::LTLTEQ | Python::AMPEQ | Python::CARETEQ | Python::PIPEEQ | Python::Yield
        | Python::Await | Python::Await2 | Python::Print => true,
        _ => false,
    }
}

/// Python kinds counted as Halstead operands: names, numbers and constants.
pub open spec fn python_operand(k: Python) -> bool {
    match k {
        Python::Identifier | Python::Integer | Python::Float | Python::True | Python::False | Python::NoneLiteral => true,
        _ => false,
    }
}

/// The parent of `node` is an expression statement with `node` as its only child.
pub open spec fn stands_alone(tree: Tree, node: int) -> bool {
    match tree.nodes@[node].parent {
        Some(p) => Python::spec_from_id(tree.nodes@[p as int].kind_id) == Python::ExpressionStatement
            && tree.nodes@[p as int].children@.len() == 1,
        None => true,
    }
}

/// How a Python node counts: a string is an operand unless it is a statement of its own
/// (a documentation string) or has no parent.
pub open spec fn python_op_type(tree: Tree, node: int) -> HalsteadType {
    let k = Python::spec_from_id(tree.nodes@[node].kind_id);
    if python_operator(k) {
        HalsteadType::Operator
    } else if python_operand(k) {
        HalsteadType::Operand
    } else if k == Python::String && !stands_alone(tree, node) {
        HalsteadType::Operand
    } else {
        HalsteadType::Unknown
    }
}

/// The space kind of a Python node.
pub open spec fn python_space_kind(k: Python) -> SpaceKind {
    match k {
        Python::FunctionDefinition => SpaceKind::Function,
        Python::ClassDefinition => SpaceKind::Class,
        Python::Module => SpaceKind::Unit,
        _ => SpaceKind::Unknown,
    }
}

/// The text under which a Python operator counts: an opening bracket stands for the pair
/// it opens.
pub open spec fn python_operator_text(id: u16) -> Seq<char> {
    match Python::spec_from_id(id) {
        Python::LPAREN => "()"@,
        Python::LBRACK => "[]"@,
        Python::LBRACE => "{}"@,
        k => k.text(),
    }
}

/// The Python grammar.
pub struct PythonCode;

impl Getter for PythonCode {
    open spec fn space_kind_of(tree: Tree, node: int) -> SpaceKind {
        python_space_kind(Python::spec_from_id(tree.nodes@[node].kind_id))
    }

    open spec fn op_type_of(tree: Tree, node: int) -> HalsteadType {
        python_op_type(tree, node)
    }

    open spec fn operator_text_of(id: u16) -> Seq<char> {
        python_operator_text(id)
    }

    open spec fn name_of(tree: Tree, node: int, code: Seq<u8>) -> Option<Seq<char>> {
        field_name(tree, node, code)
    }

    fn get_func_space_name(tree: &Tree, node: usize, code: &[u8]) -> (r: Option<String>) {
        name_from_field(tree, node, code)
    }

    fn get_space_kind(tree: &Tree, node: usize) -> (r: SpaceKind)
        ensures
            r == python_space_kind(Python::spec_from_id(tree.nodes@[node as int].kind_id)),
    {
        match Python::from_u16(tree.nodes[node].kind_id) {
            Python::FunctionDefinition => SpaceKind::Function,
            Python::ClassDefinition => SpaceKind::Class,
            Python::Module => SpaceKind::Unit,
            _ => SpaceKind::Unknown,
        }
    }

    fn get_op_type(tree: &Tree, node: usize) -> (r: HalsteadType)
        ensures
            r == python_op_type(*tree, node as int),
    {
        match Python::from_u16(tree.nodes[node].kind_id) {
            Python::Import | Python::DOT | Python::From | Python::COMMA | Python::As
            | Python::STAR | Python::GTGT | Python::Assert | Python::COLONEQ | Python::Return
            | Python::Def | Python::Del | Python::Raise | Python::Pass | Python::Break
            | Python::Continue | Python::If | Python::Elif | Python::Else | Python::Async
            | Python::For | Python::In | Python::While | Python::Try | Python::Except
            | Python::Finally | Python::With | Python::DASHGT | Python::EQ | Python::Global
            | Python::Exec | Python::AT | Python::Not | Python::And | Python::Or | Python::PLUS
            | Python::DASH | Python::SLASH | Python::PERCENT | Python::SLASHSLASH
            | Python::STARSTAR | Python::PIPE | Python::AMP | Python::CARET | Python::LTLT
            | Python::TILDE | Python::LT | Python::LTEQ | Python::EQEQ | Python::BANGEQ
            | Python::GTEQ | Python::GT | Python::LTGT | Python::Is | Python::PLUSEQ
            | Python::DASHEQ | Python::STAREQ | Python::SLASHEQ | Python::ATEQ
            | Python::SLASHSLASHEQ | Python::PERCENTEQ | Python::STARSTAREQ | Python::GTGTEQ
            | Python::LTLTEQ | Python::AMPEQ | Python::CARETEQ | Python::PIPEEQ | Python::Yield
            | Python::Await | Python::Await2 | Python::Print => {
                HalsteadType::Operator
            },
            Python::Identifier | Python::Integer | Python::Float | Python::True | Python::False | Python::NoneLiteral => HalsteadType::Operand,
            Python::String => {
                // a string that is a statement of its own documents; it is no operand
                match tree.nodes[node].parent {
                    Some(p) => {
                        assert((p as int) < tree.nodes@.len());
                        let parent = &tree.nodes[p];
                        if Python::from_u16(parent.kind_id) != Python::ExpressionStatement
                            || parent.children.len() != 1 {
                            HalsteadType::Operand
                        } else {
                            HalsteadType::Unknown
                        }
                    },
                    None => HalsteadType::Unknown,
                }
            },
            _ => HalsteadType::Unknown,
        }
    }

    fn get_operator_id_as_str(id: u16) -> (r: &'static str)
        ensures
            r@ == python_operator_text(id),
    {
        match Python::from_u16(id) {
            Python::LPAREN => "()",
            Python::LBRACK => "[]",
            Python::LBRACE => "{}",
            k => k.as_str(),
        }
    }
}

/// JavaScript kinds counted as Halstead operators.
pub open spec fn javascript_operator(k: Javascript) -> bool {
    match k {
        Javascript::Export | Javascript::Import | Javascript::Import2 | Javascript::Extends
        | Javascript::DOT | Javascript::From | Javascript::LPAREN | Javascript::COMMA
        | Javascript::As | Javascript::STAR | Javascript::GTGT | Javascript::GTGTGT
        | Javascript::COLON | Javascript::Return | Javascript::Delete | Javascript::Throw
        | Javascript::Break | Javascript::Continue | Javascript::If | Javascript::Else
        | Javascript::Switch | Javascript::Case | Javascript::Default | Javascript::Async
        | Javascript::For | Javascript::In | Javascript::Of | Javascript::While
        | Javascript::Try | Javascript::Catch | Javascript::Finally | Javascript::With
        | Javascript::EQ | Javascript::AT | Javascript::AMPAMP | Javascript::PIPEPIPE
        | Javascript::PLUS | Javascript::DASH | Javascript::DASHDASH | Javascript::PLUSPLUS
        | Javascript::SLASH | Javascript::PERCENT | Javascript::STARSTAR | Javascript::PIPE
        | Javascript::AMP | Javascript::LTLT | Javascript::TILDE | Javascript::LT
        | Javascript::LTEQ | Javascript::EQEQ | Javascript::BANGEQ | Javascript::GTEQ
        | Javascript::GT | Javascript::PLUSEQ | Javascript::BANG | Javascript::BANGEQEQ
        | Javascript::EQEQEQ | Javascript::DASHEQ | Javascript::STAREQ | Javascript::SLASHEQ
        | Javascript::PERCENTEQ | Javascript::STARSTAREQ | Javascript::GTGTEQ
        | Javascript::GTGTGTEQ | Javascript::LTLTEQ | Javascript::AMPEQ | Javascript::CARET
        | Javascript::CARETEQ | Javascript::PIPEEQ | Javascript::Yield | Javascript::LBRACK
        | Javascript::LBRACE | Javascript::Await | Javascript::QMARK | Javascript::QMARKQMARK
        | Javascript::New | Javascript::Let | Javascript::Var | Javascript::Const
        | Javascript::Function | Javascript::FunctionExpression | Javascript::SEMI => true,
        _ => false,
    }
}

/// JavaScript kinds counted as Halstead operands.
pub open spec fn javascript_operand(k: Javascript) -> bool {
    match k {
        Javascript::Identifier | Javascript::Identifier2 | Javascript::MemberExpression
        | Javascript::MemberExpression2 | Javascript::PropertyIdentifier | Javascript::String
        | Javascript::String2 | Javascript::Number | Javascript::True | Javascript::False
        | Javascript::Null | Javascript::Void | Javascript::This | Javascript::Super
        | Javascript::Undefined | Javascript::SetLiteral | Javascript::Get | Javascript::Typeof
        | Javascript::Instanceof => true,
        _ => false,
    }
}

/// How a JavaScript node counts in the Halstead measures.
pub open spec fn javascript_op_type(k: Javascript) -> HalsteadType {
    if javascript_operator(k) {
        HalsteadType::Operator
    } else if javascript_operand(k) {
        HalsteadType::Operand
    } else {
        HalsteadType::Unknown
    }
}

/// The space kind of a JavaScript node.
pub open spec fn javascript_space_kind(k: Javascript) -> SpaceKind {
    match k {
        Javascript::FunctionExpression | Javascript::MethodDefinition
        | Javascript::GeneratorFunction | Javascript::FunctionDeclaration
        | Javascript::GeneratorFunctionDeclaration | Javascript::ArrowFunction => SpaceKind::Function,
        Javascript::Class | Javascript::ClassDeclaration => SpaceKind::Class,
        Javascript::Program => SpaceKind::Unit,
        _ => SpaceKind::Unknown,
    }
}

/// The name of a JavaScript function: its `name` field; else, for a function that is the
/// value of a pair or of a variable declarator, the pair's key or the variable's name;
/// else the anonymous name.
pub open spec fn javascript_func_name(tree: Tree, node: int, code: Seq<u8>) -> Option<Seq<char>> {
    match field_text(tree, node, Field::Name, code) {
        Some(t) => t,
        None => match tree.nodes@[node].parent {
            Some(p) => {
                let pk = Javascript::spec_from_id(tree.nodes@[p as int].kind_id);
                if pk == Javascript::Pair && field_text(tree, p as int, Field::Key, code) is Some {
                    field_text(tree, p as int, Field::Key, code)->0
                } else if pk == Javascript::VariableDeclarator && field_text(tree, p as int, Field::Name, code) is Some {
                    field_text(tree, p as int, Field::Name, code)->0
                } else {
                    Some(anonymous())
                }
            },
            None => Some(anonymous()),
        },
    }
}

/// The text under which a JavaScript operator counts: an opening bracket stands for the
/// pair it opens.
pub open spec fn javascript_operator_text(id: u16) -> Seq<char> {
    match Javascript::spec_from_id(id) {
        Javascript::LPAREN => "()"@,
        Javascript::LBRACK => "[]"@,
        Javascript::LBRACE => "{}"@,
        k => k.text(),
    }
}

/// The JavaScript grammar.
pub struct JavascriptCode;

impl Getter for JavascriptCode {
    open spec fn space_kind_of(tree: Tree, node: int) -> SpaceKind {
        javascript_space_kind(Javascript::spec_from_id(tree.nodes@[node].kind_id))
    }

    open spec fn op_type_of(tree: Tree, node: int) -> HalsteadType {
        javascript_op_type(Javascript::spec_from_id(tree.nodes@[node].kind_id))
    }

    open spec fn operator_text_of(id: u16) -> Seq<char> {
        javascript_operator_text(id)
    }

    open spec fn name_of(tree: Tree, node: int, code: Seq<u8>) -> Option<Seq<char>> {
        javascript_func_name(tree, node, code)
    }

    fn get_space_kind(tree: &Tree, node: usize) -> (r: SpaceKind)
        ensures
            r == javascript_space_kind(Javascript::spec_from_id(tree.nodes@[node as int].kind_id)),
    {
        match Javascript::from_u16(tree.nodes[node].kind_id) {
            Javascript::FunctionExpression | Javascript::MethodDefinition
            | Javascript::GeneratorFunction | Javascript::FunctionDeclaration
            | Javascript::GeneratorFunctionDeclaration | Javascript::ArrowFunction => SpaceKind::Function,
            Javascript::Class | Javascript::ClassDeclaration => SpaceKind::Class,
            Javascript::Program => SpaceKind::Unit,
            _ => SpaceKind::Unknown,
        }
    }

    fn get_func_space_name(tree: &Tree, node: usize, code: &[u8]) -> (r: Option<String>)
        ensures
            name_view(r) == javascript_func_name(*tree, node as int, code@),
    {
        if let Some(t) = text_of_field(tree, node, Field::Name, code) {
            return t;
        }
        // a function without a name takes the key of a pair or the name of a variable
        if let Some(p) = tree.nodes[node].parent {
            assert((p as int) < tree.nodes@.len());
            match Javascript::from_u16(tree.nodes[p].kind_id) {
                Javascript::Pair => {
                    if let Some(t) = text_of_field(tree, p, Field::Key, code) {
                        return t;
                    }
                },
                Javascript::VariableDeclarator => {
                    if let Some(t) = text_of_field(tree, p, Field::Name, code) {
                        return t;
                    }
                },
                _ => {},
            }
        }
        Some("<anonymous>".to_owned())
    }

    fn get_op_type(tree: &Tree, node: usize) -> (r: HalsteadType)
        ensures
            r == javascript_op_type(Javascript::spec_from_id(tree.nodes@[node as int].kind_id)),
    {
        match Javascript::from_u16(tree.nodes[node].kind_id) {
            Javascript::Export | Javascript::Import | Javascript::Import2 | Javascript::Extends
            | Javascript::DOT | Javascript::From | Javascript::LPAREN | Javascript::COMMA
            | Javascript::As | Javascript::STAR | Javascript::GTGT | Javascript::GTGTGT
            | Javascript::COLON | Javascript::Return | Javascript::Delete | Javascript::Throw
            | Javascript::Break | Javascript::Continue | Javascript::If | Javascript::Else
            | Javascript::Switch | Javascript::Case | Javascript::Default | Javascript::Async
            | Javascript::For | Javascript::In | Javascript::Of | Javascript::While
            | Javascript::Try | Javascript::Catch | Javascript::Finally | Javascript::With
            | Javascript::EQ | Javascript::AT | Javascript::AMPAMP | Javascript::PIPEPIPE
            | Javascript::PLUS | Javascript::DASH | Javascript::DASHDASH | Javascript::PLUSPLUS
            | Javascript::SLASH | Javascript::PERCENT | Javascript::STARSTAR | Javascript::PIPE
            | Javascript::AMP | Javascript::LTLT | Javascript::TILDE | Javascript::LT
            | Javascript::LTEQ | Javascript::EQEQ | Javascript::BANGEQ | Javascript::GTEQ
            | Javascript::GT | Javascript::PLUSEQ | Javascript::BANG | Javascript::BANGEQEQ
            | Javascript::EQEQEQ | Javascript::DASHEQ | Javascript::STAREQ
            | Javascript::SLASHEQ | Javascript::PERCENTEQ | Javascript::STARSTAREQ
            | Javascript::GTGTEQ | Javascript::GTGTGTEQ | Javascript::LTLTEQ
            | Javascript::AMPEQ | Javascript::CARET | Javascript::CARETEQ | Javascript::PIPEEQ
            | Javascript::Yield | Javascript::LBRACK | Javascript::LBRACE | Javascript::Await
            | Javascript::QMARK | Javascript::QMARKQMARK | Javascript::New | Javascript::Let
            | Javascript::Var | Javascript::Const | Javascript::Function
            | Javascript::FunctionExpression | Javascript::SEMI => {
                HalsteadType::Operator
            },
            Javascript::Identifier | Javascript::Identifier2 | Javascript::MemberExpression
            | Javascript::MemberExpression2 | Javascript::PropertyIdentifier
            | Javascript::String | Javascript::String2 | Javascript::Number | Javascript::True
            | Javascript::False | Javascript::Null | Javascript::Void | Javascript::This
            | Javascript::Super | Javascript::Undefined | Javascript::SetLiteral
            | Javascript::Get | Javascript::Typeof | Javascript::Instanceof => {
                HalsteadType::Operand
            },
            _ => HalsteadType::Unknown,
        }
    }

    fn get_operator_id_as_str(id: u16) -> (r: &'static str)
        ensures
            r@ == javascript_operator_text(id),
    {
        match Javascript::from_u16(id) {
            Javascript::LPAREN => "()",
            Javascript::LBRACK => "[]",
            Javascript::LBRACE => "{}",
            k => k.as_str(),
        }
    }
}

/// A closing bracket counts as no operator, and an opening one counts under the text of
/// the whole pair: so a matched pair gives one distinct operator, not two.
pub proof fn lemma_javascript_brackets(k: Javascript)
    ensures
        (k == Javascript::RPAREN || k == Javascript::RBRACK || k == Javascript::RBRACE)
            ==> javascript_op_type(k) == HalsteadType::Unknown,
        javascript_operator_text(Javascript::LPAREN.id()) == "()"@,
        javascript_operator_text(Javascript::LBRACK.id()) == "[]"@,
        javascript_operator_text(Javascript::LBRACE.id()) == "{}"@,
{
}

/// The C preprocessor grammar: it opens no spaces and counts nothing.
pub struct PreprocCode;

impl Getter for PreprocCode {
    open spec fn space_kind_of(tree: Tree, node: int) -> SpaceKind {
        SpaceKind::Unknown
    }

    open spec fn op_type_of(tree: Tree, node: int) -> HalsteadType {
        HalsteadType::Unknown
    }

    open spec fn operator_text_of(id: u16) -> Seq<char> {
        ""@
    }

    open spec fn name_of(tree: Tree, node: int, code: Seq<u8>) -> Option<Seq<char>> {
        field_name(tree, node, code)
    }

    fn get_func_space_name(tree: &Tree, node: usize, code: &[u8]) -> (r: Option<String>) {
        name_from_field(tree, node, code)
    }

    fn get_space_kind(tree: &Tree, node: usize) -> (r: SpaceKind) {
        SpaceKind::Unknown
    }

    fn get_op_type(tree: &Tree, node: usize) -> (r: HalsteadType) {
        HalsteadType::Unknown
    }

    fn get_operator_id_as_str(id: u16) -> (r: &'static str) {
        ""
    }
}

/// The grammar of C comments: it opens no spaces and counts nothing.
pub struct CcommentCode;

impl Getter for CcommentCode {
    open spec fn space_kind_of(tree: Tree, node: int) -> SpaceKind {
        SpaceKind::Unknown
    }

    open spec fn op_type_of(tree: Tree, node: int) -> HalsteadType {
        HalsteadType::Unknown
    }

    open spec fn operator_text_of(id: u16) -> Seq<char> {
        ""@
    }

    open spec fn name_of(tree: Tree, node: int, code: Seq<u8>) -> Option<Seq<char>> {
        field_name(tree, node, code)
    }

    fn get_func_space_name(tree: &Tree, node: usize, code: &[u8]) -> (r: Option<String>) {
        name_from_field(tree, node, code)
    }

    fn get_space_kind(tree: &Tree, node: usize) -> (r: SpaceKind) {
        SpaceKind::Unknown
    }

    fn get_op_type(tree: &Tree, node: usize) -> (r: HalsteadType) {
        HalsteadType::Unknown
    }

    fn get_operator_id_as_str(id: u16) -> (r: &'static str) {
        ""
    }
}

/// The Kotlin grammar, with the shared answers only.
pub struct KotlinCode;

impl Getter for KotlinCode {
    open spec fn space_kind_of(tree: Tree, node: int) -> SpaceKind {
        SpaceKind::Unknown
    }

    open spec fn op_type_of(tree: Tree, node: int) -> HalsteadType {
        HalsteadType::Unknown
    }

    open spec fn operator_text_of(id: u16) -> Seq<char> {
        ""@
    }

    open spec fn name_of(tree: Tree, node: int, code: Seq<u8>) -> Option<Seq<char>> {
        field_name(tree, node, code)
    }

    fn get_func_space_name(tree: &Tree, node: usize, code: &[u8]) -> (r: Option<String>) {
        name_from_field(tree, node, code)
    }

    fn get_space_kind(tree: &Tree, node: usize) -> (r: SpaceKind) {
        SpaceKind::Unknown
    }

    fn get_op_type(tree: &Tree, node: usize) -> (r: HalsteadType) {
        HalsteadType::Unknown
    }

    fn get_operator_id_as_str(id: u16) -> (r: &'static str) {
        ""
    }
}

} // verus!
