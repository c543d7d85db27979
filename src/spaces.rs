use vstd::prelude::*;

use crate::getter::{name_view, Getter};
use crate::metrics::{
    lemma_merge_all_function, lemma_merge_all_operand, lemma_merge_all_operator, merge_all, sat_add,
    CodeMetrics, MetricsView,
};
use crate::node::Tree;
use crate::vue_extract::{count_newlines, newlines};

verus! {

/// The structural role of a space: a region of source that owns its own metrics.
#[derive(Clone, Copy, Debug, PartialEq, Eq, Structural)]
pub enum SpaceKind {
    Unknown,
    Function,
    Class,
    Struct,
    Trait,
    Impl,
    Unit,
    Namespace,
    Interface,
}

/// How a node takes part in Halstead counting.
#[derive(Clone, Copy, Debug, PartialEq, Eq, Structural)]
pub enum HalsteadType {
    Operator,
    Operand,
    Unknown,
}

/// A space of a file: its name, its first and last line (counted from 1), its kind, the
/// spaces directly inside it in the order of the source, the metrics of the nodes that
/// belong to it and to no inner space (`own`), and its metrics with those of the inner
/// spaces merged in (`metrics`).
#[derive(Debug)]
pub struct FuncSpace {
    pub name: Option<String>,
    pub start_line: usize,
    pub end_line: usize,
    pub kind: SpaceKind,
    pub spaces: Vec<FuncSpace>,
    pub own: CodeMetrics,
    pub metrics: CodeMetrics,
}

/// The number of spaces of kind `Function` in `s`.
pub open spec fn count_functions(s: Seq<FuncSpace>) -> u64
    decreases s.len(),
{
    if s.len() == 0 {
        0
    } else {
        sat_add(count_functions(s.drop_last()), if s.last().kind == SpaceKind::Function { 1u64 } else { 0u64 })
    }
}

/// The merged metrics of each of `s`.
pub open spec fn metric_views(s: Seq<FuncSpace>) -> Seq<MetricsView> {
    s.map_values(|c: FuncSpace| c.metrics.view())
}

/// The relations that hold of a space alone: its function count is the number of its
/// direct children of kind `Function`, and its merged metrics are its own metrics with
/// those of its direct children merged in.
pub open spec fn space_shape(s: FuncSpace) -> bool {
    &&& s.own.wf()
    &&& s.metrics.wf()
    &&& s.own.view().nom == count_functions(s.spaces@)
    &&& s.metrics.view() == merge_all(s.own.view(), metric_views(s.spaces@))
}

/// Every space of the tree under `s`, `s` included, has its shape; every space inside
/// `s` is of a kind other than `Unknown` and `Unit`.
pub open spec fn space_ok(s: FuncSpace) -> bool
    decreases s,
{
    space_shape(s) && forall|i: int|
        0 <= i < s.spaces@.len() ==> {
            let c = #[trigger] s.spaces@[i];
            c.kind != SpaceKind::Unknown && c.kind != SpaceKind::Unit && space_ok(c)
        }
}

/// In every space of a well-formed tree the function count is the number of direct
/// children of kind `Function`, and the merged metrics are the space's own metrics with
/// its direct children's merged metrics merged in; nothing inside the space is of kind
/// `Unit`.
pub proof fn lemma_space_laws(s: FuncSpace, i: int)
    requires
        space_ok(s),
        0 <= i < s.spaces@.len(),
    ensures
        s.own.view().nom == count_functions(s.spaces@),
        s.metrics.view() == merge_all(s.own.view(), metric_views(s.spaces@)),
        s.spaces@[i].kind != SpaceKind::Unit,
        space_ok(s.spaces@[i]),
{
    let c = s.spaces@[i];
    assert(c.kind != SpaceKind::Unknown && c.kind != SpaceKind::Unit && space_ok(c));
}

/// A space with no inner spaces has merged metrics equal to its own, and counts no
/// function.
pub proof fn lemma_leaf_space(s: FuncSpace)
    requires
        space_ok(s),
        s.spaces@.len() == 0,
    ensures
        s.metrics.view() == s.own.view(),
        s.own.view().nom == 0,
{
    assert(metric_views(s.spaces@) =~= Seq::empty());
}

/// The mathematical content of a space: its name, lines, kind, inner spaces, own metrics
/// and merged metrics.
pub struct SpaceView {
    pub name: Option<Seq<char>>,
    pub start_line: usize,
    pub end_line: usize,
    pub kind: SpaceKind,
    pub spaces: Seq<SpaceView>,
    pub own: MetricsView,
    pub metrics: MetricsView,
}

/// `s` holds what `v` describes, at every level of the tree.
pub open spec fn view_matches(s: FuncSpace, v: SpaceView) -> bool
    decreases s,
{
    &&& name_view(s.name) == v.name
    &&& s.start_line == v.start_line
    &&& s.end_line == v.end_line
    &&& s.kind == v.kind
    &&& s.own.view() == v.own
    &&& s.metrics.view() == v.metrics
    &&& s.spaces@.len() == v.spaces.len()
    &&& forall|i: int| 0 <= i < s.spaces@.len() ==> view_matches(#[trigger] s.spaces@[i], v.spaces[i])
}

/// A space with nothing in it yet.
pub open spec fn empty_view(name: Option<Seq<char>>, start_line: usize, end_line: usize, kind: SpaceKind) -> SpaceView {
    SpaceView {
        name,
        start_line,
        end_line,
        kind,
        spaces: Seq::empty(),
        own: MetricsView::empty(),
        metrics: MetricsView::empty(),
    }
}

/// `v` with node `idx` counted in its Halstead measures, as language `G` classifies it:
/// an operator under its operator text, an operand under its source text.
pub open spec fn count_spec<G: Getter>(tree: Tree, code: Seq<u8>, idx: int, v: SpaceView) -> SpaceView {
    let n = tree.nodes@[idx];
    match G::op_type_of(tree, idx) {
        HalsteadType::Operator => SpaceView {
            own: v.own.with_operator(G::operator_text_of(n.kind_id)),
            metrics: v.metrics.with_operator(G::operator_text_of(n.kind_id)),
            ..v
        },
        HalsteadType::Operand => SpaceView {
            own: v.own.with_operand(code.subrange(n.start_byte as int, n.end_byte as int)),
            metrics: v.metrics.with_operand(code.subrange(n.start_byte as int, n.end_byte as int)),
            ..v
        },
        HalsteadType::Unknown => v,
    }
}

/// `v` with `c` closed as its next inner space.
pub open spec fn close_spec(v: SpaceView, c: SpaceView) -> SpaceView {
    let f = c.kind == SpaceKind::Function;
    SpaceView {
        spaces: v.spaces.push(c),
        own: if f { v.own.with_function() } else { v.own },
        metrics: (if f { v.metrics.with_function() } else { v.metrics }).merge(c.metrics),
        ..v
    }
}

/// Node `idx` opens a space of its own under language `G`.
pub open spec fn opens_space<G: Getter>(tree: Tree, idx: int) -> bool {
    G::space_kind_of(tree, idx) != SpaceKind::Unknown && G::space_kind_of(tree, idx) != SpaceKind::Unit
}

/// `v` after the subtree of node `idx` is visited: a node that opens a space becomes an
/// inner space of `v`, named, placed and classified by `G`, holding its own subtree;
/// any other node is counted in `v` and its children are visited in order.
pub open spec fn visit_spec<G: Getter>(tree: Tree, code: Seq<u8>, idx: int, v: SpaceView) -> SpaceView
    decreases tree.nodes@.len() - idx, 1int, 0int,
{
    if !(0 <= idx < tree.nodes@.len()) {
        v
    } else if opens_space::<G>(tree, idx) {
        let n = tree.nodes@[idx];
        let c0 = empty_view(
            G::name_of(tree, idx, code),
            (n.start_row + 1) as usize,
            (n.end_row + 1) as usize,
            G::space_kind_of(tree, idx),
        );
        close_spec(v, children_spec::<G>(tree, code, idx, 0, count_spec::<G>(tree, code, idx, c0)))
    } else {
        children_spec::<G>(tree, code, idx, 0, count_spec::<G>(tree, code, idx, v))
    }
}

/// `v` after the subtrees of the children of `idx` from the `k`th on are visited, in order.
pub open spec fn children_spec<G: Getter>(tree: Tree, code: Seq<u8>, idx: int, k: int, v: SpaceView) -> SpaceView
    decreases tree.nodes@.len() - idx, 0int, tree.nodes@[idx].children@.len() - k,
{
    if !(0 <= idx < tree.nodes@.len()) || k < 0 || k >= tree.nodes@[idx].children@.len() {
        v
    } else {
        let c = tree.nodes@[idx].children@[k] as int;
        let v2 = if idx < c && c < tree.nodes@.len() {
            visit_spec::<G>(tree, code, c, v)
        } else {
            v
        };
        children_spec::<G>(tree, code, idx, k + 1, v2)
    }
}

/// The space tree of a file under language `G`: the unit space named `name`, spanning
/// every line, with the root node counted in it and the root's children visited.
pub open spec fn spaces_of<G: Getter>(tree: Tree, code: Seq<u8>, name: Option<Seq<char>>) -> SpaceView {
    children_spec::<G>(
        tree,
        code,
        0,
        0,
        count_spec::<G>(tree, code, 0, empty_view(name, 1, (newlines(code) + 1) as usize, SpaceKind::Unit)),
    )
}

/// Analysing the same tree and bytes twice with the same language gives the same space
/// tree: both results hold the one view that the input determines, so they agree on names,
/// lines, kinds, metrics and the number of inner spaces, and their inner spaces agree in the
/// same way, level by level.
pub proof fn lemma_same_input_same_tree<G: Getter>(
    tree: Tree,
    code: Seq<u8>,
    name: Option<Seq<char>>,
    a: FuncSpace,
    b: FuncSpace,
)
    requires
        view_matches(a, spaces_of::<G>(tree, code, name)),
        view_matches(b, spaces_of::<G>(tree, code, name)),
    ensures
        name_view(a.name) == name_view(b.name),
        a.start_line == b.start_line && a.end_line == b.end_line,
        a.kind == b.kind,
        a.own.view() == b.own.view(),
        a.metrics.view() == b.metrics.view(),
        a.spaces@.len() == b.spaces@.len(),
        forall|i: int|
            0 <= i < a.spaces@.len() ==> view_matches(#[trigger] a.spaces@[i], spaces_of::<G>(tree, code, name).spaces[i])
                && view_matches(b.spaces@[i], spaces_of::<G>(tree, code, name).spaces[i]),
{
}

/// The parts of a space that stay as they are while nodes are added to it.
pub open spec fn same_header(a: FuncSpace, b: FuncSpace) -> bool {
    a.name == b.name && a.start_line == b.start_line && a.end_line == b.end_line && a.kind == b.kind
}

impl FuncSpace {
    /// A space with nothing in it yet.
    pub fn new(name: Option<String>, start_line: usize, end_line: usize, kind: SpaceKind) -> (r: FuncSpace)
        ensures
            r.name == name,
            r.start_line == start_line,
            r.end_line == end_line,
            r.kind == kind,
            r.spaces@.len() == 0,
            r.own.view() == MetricsView::empty(),
            space_ok(r),
    {
        let r = FuncSpace {
            name,
            start_line,
            end_line,
            kind,
            spaces: Vec::new(),
            own: CodeMetrics::new(),
            metrics: CodeMetrics::new(),
        };
        assert(metric_views(r.spaces@) =~= Seq::empty());
        r
    }

    /// Closes `child` as the next space directly inside this one: a function adds to the
    /// function count, and the child's metrics are merged into these.
    pub fn add_child(&mut self, child: FuncSpace)
        requires
            space_ok(*old(self)),
            space_ok(child),
            child.kind != SpaceKind::Unknown,
            child.kind != SpaceKind::Unit,
        ensures
            space_ok(*final(self)),
            same_header(*final(self), *old(self)),
            final(self).spaces@ == old(self).spaces@.push(child),
            final(self).own.view().nom == sat_add(
                old(self).own.view().nom,
                if child.kind == SpaceKind::Function { 1u64 } else { 0u64 },
            ),
            forall|v: SpaceView, cv: SpaceView|
                view_matches(*old(self), v) && view_matches(child, cv) ==> view_matches(
                    *final(self),
                    close_spec(v, cv),
                ),
    {
        let ghost views = metric_views(self.spaces@);
        if child.kind == SpaceKind::Function {
            self.own.add_function();
            self.metrics.add_function();
            proof {
                lemma_merge_all_function(old(self).own.view(), views);
            }
        }
        self.metrics.merge(&child.metrics);
        let ghost cv = child.metrics.view();
        self.spaces.push(child);
        assert(self.spaces@.drop_last() =~= old(self).spaces@);
        assert(metric_views(self.spaces@) =~= views.push(cv));
        assert(metric_views(self.spaces@).drop_last() =~= views);
        assert forall|i: int| 0 <= i < self.spaces@.len() implies {
            let c = #[trigger] self.spaces@[i];
            c.kind != SpaceKind::Unknown && c.kind != SpaceKind::Unit && space_ok(c)
        } by {
            if i < old(self).spaces@.len() {
                assert(self.spaces@[i] == old(self).spaces@[i]);
            }
        }
        assert forall|v: SpaceView, cv: SpaceView|
            view_matches(*old(self), v) && view_matches(self.spaces@.last(), cv) implies view_matches(
            *self,
            close_spec(v, cv),
        ) by {
            let w = close_spec(v, cv);
            assert forall|i: int| 0 <= i < self.spaces@.len() implies view_matches(
                #[trigger] self.spaces@[i],
                w.spaces[i],
            ) by {
                if i < old(self).spaces@.len() {
                    assert(self.spaces@[i] == old(self).spaces@[i]);
                    assert(w.spaces[i] == v.spaces[i]);
                }
            }
        }
    }
}

/// Counts node `idx` in the Halstead measures of `cur`.
fn count_node<G: Getter>(tree: &Tree, code: &[u8], idx: usize, cur: &mut FuncSpace, Ghost(v): Ghost<SpaceView>)
    requires
        tree.wf(),
        tree.fits(code@.len()),
        idx < tree.nodes@.len(),
        space_ok(*old(cur)),
        view_matches(*old(cur), v),
    ensures
        space_ok(*final(cur)),
        view_matches(*final(cur), count_spec::<G>(*tree, code@, idx as int, v)),
        same_header(*final(cur), *old(cur)),
        final(cur).spaces == old(cur).spaces,
{
    let ghost views = metric_views(cur.spaces@);
    match G::get_op_type(tree, idx) {
        HalsteadType::Operator => {
            let t = G::get_operator_id_as_str(tree.nodes[idx].kind_id);
            cur.own.add_operator(t);
            cur.metrics.add_operator(t);
            proof {
                lemma_merge_all_operator(old(cur).own.view(), views, t@);
            }
        },
        HalsteadType::Operand => {
            let n = &tree.nodes[idx];
            let t = vstd::slice::slice_subrange(code, n.start_byte, n.end_byte);
            cur.own.add_operand(t);
            cur.metrics.add_operand(t);
            proof {
                lemma_merge_all_operand(old(cur).own.view(), views, t@);
            }
        },
        HalsteadType::Unknown => {},
    }
    assert forall|i: int| 0 <= i < cur.spaces@.len() implies view_matches(
        #[trigger] cur.spaces@[i],
        count_spec::<G>(*tree, code@, idx as int, v).spaces[i],
    ) by {
        assert(cur.spaces@[i] == old(cur).spaces@[i]);
    }
}

/// Visits node `idx` and the nodes under it, adding what they hold to `cur`: a node that
/// opens a space of a kind other than `Unknown` and `Unit` gets a space of its own, which
/// is closed into `cur` when its nodes are done.
fn visit<G: Getter>(tree: &Tree, code: &[u8], idx: usize, cur: &mut FuncSpace, Ghost(v): Ghost<SpaceView>)
    requires
        tree.wf(),
        tree.fits(code@.len()),
        idx < tree.nodes@.len(),
        space_ok(*old(cur)),
        view_matches(*old(cur), v),
    ensures
        space_ok(*final(cur)),
        view_matches(*final(cur), visit_spec::<G>(*tree, code@, idx as int, v)),
        same_header(*final(cur), *old(cur)),
    decreases tree.nodes@.len() - idx, 1nat,
{
    let kind = G::get_space_kind(tree, idx);
    if kind != SpaceKind::Unknown && kind != SpaceKind::Unit {
        let n = &tree.nodes[idx];
        assert(tree.nodes@[idx as int].end_row < usize::MAX);
        let name = G::get_func_space_name(tree, idx, code);
        let mut child = FuncSpace::new(name, n.start_row + 1, n.end_row + 1, kind);
        let ghost c0 = empty_view(
            G::name_of(*tree, idx as int, code@),
            (n.start_row + 1) as usize,
            (n.end_row + 1) as usize,
            kind,
        );
        assert(view_matches(child, c0));
        count_node::<G>(tree, code, idx, &mut child, Ghost(c0));
        let ghost c1 = count_spec::<G>(*tree, code@, idx as int, c0);
        visit_children::<G>(tree, code, idx, &mut child, Ghost(c1));
        cur.add_child(child);
    } else {
        count_node::<G>(tree, code, idx, cur, Ghost(v));
        let ghost v1 = count_spec::<G>(*tree, code@, idx as int, v);
        visit_children::<G>(tree, code, idx, cur, Ghost(v1));
    }
}

/// Visits the children of node `idx`, in the grammar's order.
fn visit_children<G: Getter>(tree: &Tree, code: &[u8], idx: usize, cur: &mut FuncSpace, Ghost(v): Ghost<SpaceView>)
    requires
        tree.wf(),
        tree.fits(code@.len()),
        idx < tree.nodes@.len(),
        space_ok(*old(cur)),
        view_matches(*old(cur), v),
    ensures
        space_ok(*final(cur)),
        view_matches(*final(cur), children_spec::<G>(*tree, code@, idx as int, 0, v)),
        same_header(*final(cur), *old(cur)),
    decreases tree.nodes@.len() - idx, 0nat,
{
    let children = &tree.nodes[idx].children;
    let mut k: usize = 0;
    let ghost mut w = v;
    while k < children.len()
        invariant
            tree.wf(),
            tree.fits(code@.len()),
            idx < tree.nodes@.len(),
            *children == tree.nodes@[idx as int].children,
            k <= children@.len(),
            space_ok(*cur),
            same_header(*cur, *old(cur)),
            view_matches(*cur, w),
            children_spec::<G>(*tree, code@, idx as int, k as int, w) == children_spec::<G>(
                *tree,
                code@,
                idx as int,
                0,
                v,
            ),
        decreases children@.len() - k,
    {
        let c = children[k];
        assert(tree.nodes@[idx as int].children@[k as int] == c);
        visit::<G>(tree, code, c, cur, Ghost(w));
        proof {
            w = visit_spec::<G>(*tree, code@, c as int, w);
        }
        k = k + 1;
    }
}

/// The space tree of a file: the unit space, named `name`, spanning every line of `code`,
/// with the spaces that the language finds in `tree` inside it.
pub fn get_function_spaces<G: Getter>(tree: &Tree, code: &[u8], name: Option<String>) -> (r: FuncSpace)
    requires
        tree.wf(),
        tree.fits(code@.len()),
        code@.len() < usize::MAX,
    ensures
        r.kind == SpaceKind::Unit,
        r.name == name,
        r.start_line == 1,
        r.end_line == newlines(code@) + 1,
        space_ok(r),
        view_matches(r, spaces_of::<G>(*tree, code@, name_view(name))),
{
    let lines = count_newlines(code, code.len());
    assert(code@.subrange(0, code@.len() as int) =~= code@);
    let ghost nv = name_view(name);
    let mut root = FuncSpace::new(name, 1, lines + 1, SpaceKind::Unit);
    let ghost r0 = empty_view(nv, 1, (newlines(code@) + 1) as usize, SpaceKind::Unit);
    assert(view_matches(root, r0));
    count_node::<G>(tree, code, 0, &mut root, Ghost(r0));
    let ghost r1 = count_spec::<G>(*tree, code@, 0, r0);
    visit_children::<G>(tree, code, 0, &mut root, Ghost(r1));
    root
}

} // verus!
