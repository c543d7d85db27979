use vstd::prelude::*;

use crate::cpp::Cpp;
use crate::getter::{
    child_in_field, field_child, field_text, name_view, node_text, text_of_field, text_of_node,
};
use crate::node::{Field, Tree};

verus! {

/// A function declarator, in any of its forms.
pub open spec fn is_function_declarator(k: Cpp) -> bool {
    k == Cpp::FunctionDeclarator || k == Cpp::FunctionDeclarator2 || k == Cpp::FunctionDeclarator3
}

/// A kind of node that can name a function at the head of its declarator.
pub open spec fn names_function(k: Cpp) -> bool {
    match k {
        Cpp::TypeIdentifier | Cpp::Identifier | Cpp::FieldIdentifier | Cpp::DestructorName
        | Cpp::OperatorName | Cpp::QualifiedIdentifier | Cpp::QualifiedIdentifier2
        | Cpp::QualifiedIdentifier3 | Cpp::QualifiedIdentifier4 | Cpp::TemplateFunction
        | Cpp::TemplateMethod => true,
        _ => false,
    }
}

pub open spec fn cpp_kind(tree: Tree, n: int) -> Cpp {
    Cpp::spec_from_id(tree.nodes@[n].kind_id)
}

/// The first function declarator in the subtree of `n`, in pre-order, `n` included.
pub open spec fn first_declarator(tree: Tree, n: int) -> Option<int>
    decreases tree.nodes@.len() - n, 1int, 0int,
{
    if !(0 <= n < tree.nodes@.len()) {
        None
    } else if is_function_declarator(cpp_kind(tree, n)) {
        Some(n)
    } else {
        first_declarator_from(tree, n, 0)
    }
}

/// The first function declarator in the subtrees of the children of `n` from the `k`th on.
pub open spec fn first_declarator_from(tree: Tree, n: int, k: int) -> Option<int>
    decreases tree.nodes@.len() - n, 0int, tree.nodes@[n].children@.len() - k,
{
    if !(0 <= n < tree.nodes@.len()) || k < 0 || k >= tree.nodes@[n].children@.len() {
        None
    } else {
        let c = tree.nodes@[n].children@[k] as int;
        let r = if n < c && c < tree.nodes@.len() {
            first_declarator(tree, c)
        } else {
            None
        };
        match r {
            Some(x) => Some(x),
            None => first_declarator_from(tree, n, k + 1),
        }
    }
}

/// The first child of `n` from the `k`th on that is an operator cast.
pub open spec fn first_cast_from(tree: Tree, n: int, k: int) -> Option<int>
    decreases tree.nodes@[n].children@.len() - k,
{
    if k < 0 || k >= tree.nodes@[n].children@.len() {
        None
    } else if cpp_kind(tree, tree.nodes@[n].children@[k] as int) == Cpp::OperatorCast {
        Some(tree.nodes@[n].children@[k] as int)
    } else {
        first_cast_from(tree, n, k + 1)
    }
}

/// The name of a C++ function definition: the text of an operator cast among its
/// children; else the head of the first function declarator in its `declarator` field,
/// where that head is a kind of name. Of any other construct: its `name` field. `None`
/// where no name is found.
pub open spec fn cpp_func_name(tree: Tree, node: int, code: Seq<u8>) -> Option<Seq<char>> {
    let k = cpp_kind(tree, node);
    if k == Cpp::FunctionDefinition || k == Cpp::FunctionDefinition2 || k == Cpp::FunctionDefinition3 {
        match first_cast_from(tree, node, 0) {
            Some(c) => node_text(tree, c, code),
            None => match field_child(tree, node, Field::Declarator) {
                Some(d) => match first_declarator(tree, d) {
                    Some(fd) => if tree.nodes@[fd].children@.len() > 0 && names_function(
                        cpp_kind(tree, tree.nodes@[fd].children@[0] as int),
                    ) {
                        node_text(tree, tree.nodes@[fd].children@[0] as int, code)
                    } else {
                        None
                    },
                    None => None,
                },
                None => None,
            },
        }
    } else {
        match field_text(tree, node, Field::Name, code) {
            Some(t) => t,
            None => None,
        }
    }
}

fn function_declarator_kind(k: Cpp) -> (r: bool)
    ensures
        r == is_function_declarator(k),
{
    k == Cpp::FunctionDeclarator || k == Cpp::FunctionDeclarator2 || k == Cpp::FunctionDeclarator3
}

/// The first function declarator in the subtree of `n`, in pre-order.
fn find_declarator(tree: &Tree, n: usize) -> (r: Option<usize>)
    requires
        tree.wf(),
        n < tree.nodes@.len(),
    ensures
        match r {
            Some(x) => first_declarator(*tree, n as int) == Some(x as int) && (x as int) < tree.nodes@.len(),
            None => first_declarator(*tree, n as int) is None,
        },
    decreases tree.nodes@.len() - n, 1int, 0int,
{
    if function_declarator_kind(Cpp::from_u16(tree.nodes[n].kind_id)) {
        return Some(n);
    }
    find_declarator_from(tree, n, 0)
}

/// The first function declarator under the children of `n` from the `k`th on.
fn find_declarator_from(tree: &Tree, n: usize, k: usize) -> (r: Option<usize>)
    requires
        tree.wf(),
        n < tree.nodes@.len(),
    ensures
        match r {
            Some(x) => first_declarator_from(*tree, n as int, k as int) == Some(x as int) && (x as int) < tree.nodes@.len(),
            None => first_declarator_from(*tree, n as int, k as int) is None,
        },
    decreases tree.nodes@.len() - n, 0int, tree.nodes@[n as int].children@.len() - k,
{
    if k >= tree.nodes[n].children.len() {
        return None;
    }
    let c = tree.nodes[n].children[k];
    assert(tree.nodes@[n as int].children@[k as int] == c);
    match find_declarator(tree, c) {
        Some(x) => Some(x),
        None => find_declarator_from(tree, n, k + 1),
    }
}

/// The first child of `n` from the `k`th on that is an operator cast.
fn find_cast_from(tree: &Tree, n: usize, k: usize) -> (r: Option<usize>)
    requires
        tree.wf(),
        n < tree.nodes@.len(),
    ensures
        match r {
            Some(x) => first_cast_from(*tree, n as int, k as int) == Some(x as int) && (x as int) < tree.nodes@.len(),
            None => first_cast_from(*tree, n as int, k as int) is None,
        },
    decreases tree.nodes@[n as int].children@.len() - k,
{
    if k >= tree.nodes[n].children.len() {
        return None;
    }
    let c = tree.nodes[n].children[k];
    assert(tree.nodes@[n as int].children@[k as int] == c);
    if Cpp::from_u16(tree.nodes[c].kind_id) == Cpp::OperatorCast {
        Some(c)
    } else {
        find_cast_from(tree, n, k + 1)
    }
}

fn names_function_kind(k: Cpp) -> (r: bool)
    ensures
        r == names_function(k),
{
    match k {
        Cpp::TypeIdentifier | Cpp::Identifier | Cpp::FieldIdentifier | Cpp::DestructorName
        | Cpp::OperatorName | Cpp::QualifiedIdentifier | Cpp::QualifiedIdentifier2
        | Cpp::QualifiedIdentifier3 | Cpp::QualifiedIdentifier4 | Cpp::TemplateFunction
        | Cpp::TemplateMethod => true,
        _ => false,
    }
}


/// The name of the C++ construct that `node` opens.
pub fn cpp_function_name(tree: &Tree, node: usize, code: &[u8]) -> (r: Option<String>)
    requires
        tree.wf(),
        node < tree.nodes@.len(),
        tree.fits(code@.len()),
    ensures
        name_view(r) == cpp_func_name(*tree, node as int, code@),
{
    let k = Cpp::from_u16(tree.nodes[node].kind_id);
    if k == Cpp::FunctionDefinition || k == Cpp::FunctionDefinition2 || k == Cpp::FunctionDefinition3 {
        if let Some(op_cast) = find_cast_from(tree, node, 0) {
            return text_of_node(tree, op_cast, code);
        }
        // the name stands at the head of the function declarator
        if let Some(declarator) = child_in_field(tree, node, Field::Declarator) {
            if let Some(fd) = find_declarator(tree, declarator) {
                if tree.nodes[fd].children.len() > 0 {
                    let first = tree.nodes[fd].children[0];
                    assert(tree.nodes@[fd as int].children@[0] == first);
                    if names_function_kind(Cpp::from_u16(tree.nodes[first].kind_id)) {
                        return text_of_node(tree, first, code);
                    }
                }
            }
        }
        None
    } else {
        match text_of_field(tree, node, Field::Name, code) {
            Some(t) => t,
            None => None,
        }
    }
}

} // verus!
