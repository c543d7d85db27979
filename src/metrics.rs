use vstd::prelude::*;

verus! {

/// `a + b`, held at `u64::MAX`.
pub open spec fn sat_add(a: u64, b: u64) -> u64 {
    if a + b > u64::MAX {
        u64::MAX
    } else {
        (a + b) as u64
    }
}

/// The mathematical content of a space's metrics: the distinct operator texts, the
/// distinct operand texts, the two occurrence counts, and the number of functions.
pub struct MetricsView {
    pub operators: Set<Seq<char>>,
    pub operands: Set<Seq<u8>>,
    pub total_operators: u64,
    pub total_operands: u64,
    pub nom: u64,
}

impl MetricsView {
    /// Metrics with nothing counted.
    pub open spec fn empty() -> MetricsView {
        MetricsView {
            operators: Set::empty(),
            operands: Set::empty(),
            total_operators: 0,
            total_operands: 0,
            nom: 0,
        }
    }

    /// Merging two metrics: distinct texts are united, counts are added.
    pub open spec fn merge(self, o: MetricsView) -> MetricsView {
        MetricsView {
            operators: self.operators + o.operators,
            operands: self.operands + o.operands,
            total_operators: sat_add(self.total_operators, o.total_operators),
            total_operands: sat_add(self.total_operands, o.total_operands),
            nom: sat_add(self.nom, o.nom),
        }
    }
}

impl MetricsView {
    /// One more occurrence of the operator `t`.
    pub open spec fn with_operator(self, t: Seq<char>) -> MetricsView {
        MetricsView {
            operators: self.operators.insert(t),
            total_operators: sat_add(self.total_operators, 1),
            ..self
        }
    }

    /// One more occurrence of the operand `t`.
    pub open spec fn with_operand(self, t: Seq<u8>) -> MetricsView {
        MetricsView { operands: self.operands.insert(t), total_operands: sat_add(self.total_operands, 1), ..self }
    }

    /// One more function.
    pub open spec fn with_function(self) -> MetricsView {
        MetricsView { nom: sat_add(self.nom, 1), ..self }
    }
}

/// `m` with the metrics of each of `children` merged in, in order.
pub open spec fn merge_all(m: MetricsView, children: Seq<MetricsView>) -> MetricsView
    decreases children.len(),
{
    if children.len() == 0 {
        m
    } else {
        merge_all(m, children.drop_last()).merge(children.last())
    }
}

/// The views of a list of byte strings.
pub open spec fn texts(v: Seq<Vec<u8>>) -> Seq<Seq<u8>> {
    v.map_values(|b: Vec<u8>| b@)
}

proof fn lemma_push_to_set<A>(s: Seq<A>, x: A)
    ensures
        s.push(x).to_set() == s.to_set().insert(x),
{
    assert forall|y: A| s.push(x).to_set().contains(y) == s.to_set().insert(x).contains(y) by {
        if s.push(x).contains(y) {
            let j = choose|j: int| 0 <= j < s.push(x).len() && s.push(x)[j] == y;
            if j < s.len() {
                assert(s.contains(y));
            }
        }
        if s.contains(y) {
            let j = choose|j: int| 0 <= j < s.len() && s[j] == y;
            assert(s.push(x)[j] == y);
        }
        if y == x {
            assert(s.push(x)[s.len() as int] == x);
        }
    }
    assert(s.push(x).to_set() =~= s.to_set().insert(x));
}

/// Whether two byte strings are equal.
fn bytes_equal(a: &[u8], b: &[u8]) -> (r: bool)
    ensures
        r == (a@ == b@),
{
    if a.len() != b.len() {
        return false;
    }
    let mut k: usize = 0;
    while k < a.len()
        invariant
            a@.len() == b@.len(),
            k <= a@.len(),
            forall|j: int| 0 <= j < k ==> a@[j] == b@[j],
        decreases a@.len() - k,
    {
        if a[k] != b[k] {
            return false;
        }
        k = k + 1;
    }
    assert(a@ =~= b@);
    true
}

/// The views of a list of strings.
pub open spec fn words(v: Seq<String>) -> Seq<Seq<char>> {
    v.map_values(|b: String| b@)
}

/// Adds `t` to a list of distinct strings unless it is there already.
fn insert_word(v: &mut Vec<String>, t: &str)
    requires
        words(old(v)@).no_duplicates(),
    ensures
        words(final(v)@).no_duplicates(),
        words(final(v)@).to_set() == words(old(v)@).to_set().insert(t@),
{
    let w = t.to_owned();
    let mut k: usize = 0;
    while k < v.len()
        invariant
            *v == *old(v),
            words(v@).no_duplicates(),
            w@ == t@,
            k <= v@.len(),
            forall|j: int| 0 <= j < k ==> v@[j]@ != t@,
        decreases v@.len() - k,
    {
        if v[k] == w {
            assert(words(v@)[k as int] == t@);
            assert(words(v@).to_set() =~= words(v@).to_set().insert(t@));
            return;
        }
        k = k + 1;
    }
    let ghost before = words(v@);
    v.push(w);
    assert(words(v@) =~= before.push(t@));
    assert(!before.contains(t@)) by {
        if before.contains(t@) {
            let j = choose|j: int| 0 <= j < before.len() && before[j] == t@;
            assert(v@[j]@ == t@);
        }
    }
    proof { lemma_push_to_set(before, t@); }
    assert forall|i: int, j: int|
        0 <= i < words(v@).len() && 0 <= j < words(v@).len() && i != j implies words(v@)[i] != words(v@)[j] by {
        if i == before.len() {
            assert(before[j] == words(v@)[j]);
        }
        if j == before.len() {
            assert(before[i] == words(v@)[i]);
        }
    }
}

/// Adds `t` to a list of distinct texts unless it is there already.
fn insert_text(v: &mut Vec<Vec<u8>>, t: &[u8])
    requires
        texts(old(v)@).no_duplicates(),
    ensures
        texts(final(v)@).no_duplicates(),
        texts(final(v)@).to_set() == texts(old(v)@).to_set().insert(t@),
{
    let mut k: usize = 0;
    while k < v.len()
        invariant
            *v == *old(v),
            texts(v@).no_duplicates(),
            k <= v@.len(),
            forall|j: int| 0 <= j < k ==> v@[j]@ != t@,
        decreases v@.len() - k,
    {
        if bytes_equal(v[k].as_slice(), t) {
            assert(texts(v@)[k as int] == t@);
            assert(texts(v@).to_set() =~= texts(v@).to_set().insert(t@));
            return;
        }
        k = k + 1;
    }
    let ghost before = texts(v@);
    v.push(slice_to_vec_copy(t));
    assert(texts(v@) =~= before.push(t@));
    assert(!before.contains(t@)) by {
        if before.contains(t@) {
            let j = choose|j: int| 0 <= j < before.len() && before[j] == t@;
            assert(v@[j]@ == t@);
        }
    }
    proof { lemma_push_to_set(before, t@); }
    assert forall|i: int, j: int|
        0 <= i < texts(v@).len() && 0 <= j < texts(v@).len() && i != j implies texts(v@)[i] != texts(v@)[j] by {
        if i == before.len() {
            assert(before[j] == texts(v@)[j]);
        }
        if j == before.len() {
            assert(before[i] == texts(v@)[i]);
        }
    }
}

fn slice_to_vec_copy(t: &[u8]) -> (r: Vec<u8>)
    ensures
        r@ == t@,
{
    vstd::slice::slice_to_vec(t)
}

/// The Halstead counts of a space: its distinct operator and operand texts, each once,
/// and how often operators and operands occurred.
#[derive(Clone, Debug)]
pub struct Halstead {
    pub operators: Vec<String>,
    pub operands: Vec<Vec<u8>>,
    pub total_operators: u64,
    pub total_operands: u64,
}

/// The metrics that a space accumulates.
#[derive(Clone, Debug)]
pub struct CodeMetrics {
    pub halstead: Halstead,
    pub nom: u64,
}

impl CodeMetrics {
    /// No text is listed twice.
    pub open spec fn wf(&self) -> bool {
        words(self.halstead.operators@).no_duplicates() && texts(self.halstead.operands@).no_duplicates()
    }

    pub open spec fn view(&self) -> MetricsView {
        MetricsView {
            operators: words(self.halstead.operators@).to_set(),
            operands: texts(self.halstead.operands@).to_set(),
            total_operators: self.halstead.total_operators,
            total_operands: self.halstead.total_operands,
            nom: self.nom,
        }
    }

    /// Metrics with nothing counted.
    pub fn new() -> (r: CodeMetrics)
        ensures
            r.wf(),
            r.view() == MetricsView::empty(),
    {
        let r = CodeMetrics {
            halstead: Halstead {
                operators: Vec::new(),
                operands: Vec::new(),
                total_operators: 0,
                total_operands: 0,
            },
            nom: 0,
        };
        assert(r.view().operators =~= Set::empty());
        assert(r.view().operands =~= Set::empty());
        r
    }

    /// Counts one occurrence of the operator whose text is `t`.
    pub fn add_operator(&mut self, t: &str)
        requires
            old(self).wf(),
        ensures
            final(self).wf(),
            final(self).view() == old(self).view().with_operator(t@),
    {
        insert_word(&mut self.halstead.operators, t);
        self.halstead.total_operators = self.halstead.total_operators.saturating_add(1);
    }

    /// Counts one occurrence of the operand whose text is `t`.
    pub fn add_operand(&mut self, t: &[u8])
        requires
            old(self).wf(),
        ensures
            final(self).wf(),
            final(self).view() == old(self).view().with_operand(t@),
    {
        insert_text(&mut self.halstead.operands, t);
        self.halstead.total_operands = self.halstead.total_operands.saturating_add(1);
    }

    /// Counts one more function.
    pub fn add_function(&mut self)
        ensures
            final(self).halstead == old(self).halstead,
            final(self).wf() == old(self).wf(),
            final(self).view() == old(self).view().with_function(),
    {
        self.nom = self.nom.saturating_add(1);
    }

    /// Merges the metrics of `other` into these.
    pub fn merge(&mut self, other: &CodeMetrics)
        requires
            old(self).wf(),
            other.wf(),
        ensures
            final(self).wf(),
            final(self).view() == old(self).view().merge(other.view()),
    {
        let mut k: usize = 0;
        assert(words(other.halstead.operators@.subrange(0, 0)).to_set() =~= Set::empty());
        assert(words(self.halstead.operators@).to_set() =~= words(old(self).halstead.operators@).to_set() + Set::empty());
        while k < other.halstead.operators.len()
            invariant
                self.wf(),
                k <= other.halstead.operators@.len(),
                words(self.halstead.operators@).to_set() == words(old(self).halstead.operators@).to_set()
                    + words(other.halstead.operators@.subrange(0, k as int)).to_set(),
                self.halstead.operands == old(self).halstead.operands,
                self.halstead.total_operators == old(self).halstead.total_operators,
                self.halstead.total_operands == old(self).halstead.total_operands,
                self.nom == old(self).nom,
            decreases other.halstead.operators@.len() - k,
        {
            insert_word(&mut self.halstead.operators, other.halstead.operators[k].as_str());
            assert(words(other.halstead.operators@.subrange(0, k + 1)) =~= words(
                other.halstead.operators@.subrange(0, k as int),
            ).push(other.halstead.operators@[k as int]@));
            proof {
                lemma_push_to_set(words(other.halstead.operators@.subrange(0, k as int)), other.halstead.operators@[k as int]@);
            }
            assert(words(self.halstead.operators@).to_set() =~= words(old(self).halstead.operators@).to_set()
                    + words(other.halstead.operators@.subrange(0, k + 1)).to_set());
            k = k + 1;
        }
        assert(other.halstead.operators@.subrange(0, other.halstead.operators@.len() as int) =~= other.halstead.operators@);
        let mut k: usize = 0;
        assert(texts(other.halstead.operands@.subrange(0, 0)).to_set() =~= Set::empty());
        assert(texts(self.halstead.operands@).to_set() =~= texts(old(self).halstead.operands@).to_set() + Set::empty());
        while k < other.halstead.operands.len()
            invariant
                self.wf(),
                k <= other.halstead.operands@.len(),
                texts(self.halstead.operands@).to_set() == texts(old(self).halstead.operands@).to_set()
                    + texts(other.halstead.operands@.subrange(0, k as int)).to_set(),
                words(self.halstead.operators@).to_set() == words(old(self).halstead.operators@).to_set()
                    + words(other.halstead.operators@).to_set(),
                self.halstead.total_operators == old(self).halstead.total_operators,
                self.halstead.total_operands == old(self).halstead.total_operands,
                self.nom == old(self).nom,
            decreases other.halstead.operands@.len() - k,
        {
            insert_text(&mut self.halstead.operands, other.halstead.operands[k].as_slice());
            assert(texts(other.halstead.operands@.subrange(0, k + 1)) =~= texts(
                other.halstead.operands@.subrange(0, k as int),
            ).push(other.halstead.operands@[k as int]@));
            proof {
                lemma_push_to_set(texts(other.halstead.operands@.subrange(0, k as int)), other.halstead.operands@[k as int]@);
            }
            assert(texts(self.halstead.operands@).to_set() =~= texts(old(self).halstead.operands@).to_set()
                    + texts(other.halstead.operands@.subrange(0, k + 1)).to_set());
            k = k + 1;
        }
        assert(other.halstead.operands@.subrange(0, other.halstead.operands@.len() as int) =~= other.halstead.operands@);
        self.halstead.total_operators = self.halstead.total_operators.saturating_add(
            other.halstead.total_operators,
        );
        self.halstead.total_operands = self.halstead.total_operands.saturating_add(
            other.halstead.total_operands,
        );
        self.nom = self.nom.saturating_add(other.nom);
    }
}

/// Merging the metrics of no children leaves a space's metrics as they are, and so does
/// merging metrics with nothing counted.
pub proof fn lemma_merge_identity(m: MetricsView)
    ensures
        merge_all(m, Seq::empty()) == m,
        m.merge(MetricsView::empty()) == m,
{
    assert(m.operators + Set::empty() =~= m.operators);
    assert(m.operands + Set::empty() =~= m.operands);
}

/// Counting the same operand text twice adds to the total each time, but to the distinct
/// operands only once; so for operators.
pub proof fn lemma_repeat_is_not_distinct(m: MetricsView, t: Seq<u8>, o: Seq<char>)
    ensures
        m.with_operand(t).with_operand(t).operands == m.with_operand(t).operands,
        m.with_operand(t).operands.contains(t),
        m.total_operands < u64::MAX - 1 ==> m.with_operand(t).with_operand(t).total_operands
            == m.total_operands + 2,
        m.with_operator(o).with_operator(o).operators == m.with_operator(o).operators,
        m.with_operator(o).operators.contains(o),
        m.total_operators < u64::MAX - 1 ==> m.with_operator(o).with_operator(o).total_operators
            == m.total_operators + 2,
{
    assert(m.operands.insert(t).insert(t) =~= m.operands.insert(t));
    assert(m.operators.insert(o).insert(o) =~= m.operators.insert(o));
}

/// Counting an operand in a space before or after merging its children gives the same.
pub proof fn lemma_merge_all_operand(m: MetricsView, cs: Seq<MetricsView>, t: Seq<u8>)
    ensures
        merge_all(m.with_operand(t), cs) == merge_all(m, cs).with_operand(t),
    decreases cs.len(),
{
    if cs.len() > 0 {
        lemma_merge_all_operand(m, cs.drop_last(), t);
        let a = merge_all(m, cs.drop_last());
        assert(a.with_operand(t).merge(cs.last()).operands =~= a.merge(cs.last()).with_operand(t).operands);
    }
}

/// Counting an operator in a space before or after merging its children gives the same.
pub proof fn lemma_merge_all_operator(m: MetricsView, cs: Seq<MetricsView>, t: Seq<char>)
    ensures
        merge_all(m.with_operator(t), cs) == merge_all(m, cs).with_operator(t),
    decreases cs.len(),
{
    if cs.len() > 0 {
        lemma_merge_all_operator(m, cs.drop_last(), t);
        let a = merge_all(m, cs.drop_last());
        assert(a.with_operator(t).merge(cs.last()).operators =~= a.merge(cs.last()).with_operator(t).operators);
    }
}

/// Counting a function in a space before or after merging its children gives the same.
pub proof fn lemma_merge_all_function(m: MetricsView, cs: Seq<MetricsView>)
    ensures
        merge_all(m.with_function(), cs) == merge_all(m, cs).with_function(),
    decreases cs.len(),
{
    if cs.len() > 0 {
        lemma_merge_all_function(m, cs.drop_last());
    }
}

} // verus!
