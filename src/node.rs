use vstd::prelude::*;

verus! {

/// The named field of its parent that a node fills.
#[derive(Clone, Copy, Debug, PartialEq, Eq, Structural)]
pub enum Field {
    Name,
    Key,
    Declarator,
    Type,
}

/// One node of a concrete syntax tree: its numeric kind, its byte range, its rows
/// (counted from 0), its parent, the field of the parent it fills, and its children in
/// the grammar's order, all as indices into the tree.
#[derive(Clone, Debug)]
pub struct Node {
    pub kind_id: u16,
    pub start_byte: usize,
    pub end_byte: usize,
    pub start_row: usize,
    pub end_row: usize,
    pub parent: Option<usize>,
    pub field: Option<Field>,
    pub children: Vec<usize>,
}

/// A concrete syntax tree stored as a list of nodes; the root is the first node.
#[derive(Clone, Debug)]
pub struct Tree {
    pub nodes: Vec<Node>,
}

impl Tree {
    /// The nodes form a tree rooted at the first node, every child stands after its
    /// parent, parent and child links agree, and each node's range runs forward.
    pub open spec fn wf(&self) -> bool {
        &&& self.nodes@.len() > 0
        &&& self.nodes@[0].parent is None
        &&& forall|i: int, k: int|
            0 <= i < self.nodes@.len() && 0 <= k < self.nodes@[i].children@.len() ==> {
                let c = #[trigger] self.nodes@[i].children@[k] as int;
                i < c < self.nodes@.len() && self.nodes@[c].parent == Some(i as usize)
            }
        &&& forall|i: int|
            0 < i < self.nodes@.len() ==> ((#[trigger] self.nodes@[i]).parent matches Some(p)
                && p < i)
        &&& forall|i: int|
            0 <= i < self.nodes@.len() ==> (#[trigger] self.nodes@[i]).start_byte
                <= self.nodes@[i].end_byte && self.nodes@[i].start_row <= self.nodes@[i].end_row
                && self.nodes@[i].end_row < usize::MAX
    }

    /// Every node's byte range lies within a source of `n` bytes.
    pub open spec fn fits(&self, n: nat) -> bool {
        forall|i: int| 0 <= i < self.nodes@.len() ==> (#[trigger] self.nodes@[i]).end_byte <= n
    }

    /// `c` is the first child of `node` that fills field `f`.
    pub open spec fn is_field_child(&self, node: int, f: Field, k: int) -> bool {
        let ch = self.nodes@[node].children@;
        0 <= k < ch.len() && self.nodes@[ch[k] as int].field == Some(f) && forall|j: int|
            0 <= j < k ==> self.nodes@[ch[j] as int].field != Some(f)
    }

    /// The child of `node` that fills field `f`, if any: the first one.
    pub fn child_by_field(&self, node: usize, f: Field) -> (r: Option<usize>)
        requires
            self.wf(),
            node < self.nodes@.len(),
        ensures
            r is None ==> forall|k: int|
                0 <= k < self.nodes@[node as int].children@.len() ==> self.nodes@[self.nodes@[node as int].children@[k] as int].field
                    != Some(f),
            r matches Some(c) ==> exists|k: int|
                self.is_field_child(node as int, f, k) && c == self.nodes@[node as int].children@[k],
            r matches Some(c) ==> (c as int) < self.nodes@.len(),
    {
        let ch = &self.nodes[node].children;
        let mut k: usize = 0;
        while k < ch.len()
            invariant
                self.wf(),
                node < self.nodes@.len(),
                *ch == self.nodes@[node as int].children,
                k <= ch@.len(),
                forall|j: int| 0 <= j < k ==> self.nodes@[ch@[j] as int].field != Some(f),
            decreases ch@.len() - k,
        {
            let c = ch[k];
            assert(self.nodes@[node as int].children@[k as int] == c);
            if self.nodes[c].field == Some(f) {
                assert(self.is_field_child(node as int, f, k as int));
                return Some(c);
            }
            k = k + 1;
        }
        None
    }
}

} // verus!
