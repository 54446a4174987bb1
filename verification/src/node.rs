//! The computation node and its backing columnar storage.
//!
//! A node pairs the materialized storage (one typed column per schema slot)
//! with the input rows that ports have queued since the last processing
//! step, a materialization counter and a port allocator. Host code never
//! constructs a node; it reaches one only through a table's handle.
//!
//! The processing contract is the heart of the bridge: queued input becomes
//! readable only through [`GNode::process`], which appends every queued row
//! to the columns, in arrival order, and leaves nothing queued. Processing
//! with nothing queued changes no materialized data.

use vstd::prelude::*;
use crate::column::{Column, ColumnView};
use crate::dtype::DType;
use crate::scalar::{Scalar, ScalarVal};

verus! {

/// The `i`-th cell of every row, in row order.
pub open spec fn column_slice(pending: Seq<Seq<ScalarVal>>, i: int) -> Seq<ScalarVal> {
    pending.map_values(|row: Seq<ScalarVal>| row[i])
}

/// The mathematical value of a [`GNode`].
#[verifier::ext_equal]
pub struct NodeView {
    /// Materialized storage, one column per schema slot.
    pub table: Seq<ColumnView>,
    /// Rows queued through ports and not yet materialized.
    pub pending: Seq<Seq<ScalarVal>>,
    /// How many processing steps have completed.
    pub steps: u64,
    /// The next port identifier to hand out.
    pub next_port: usize,
}

impl NodeView {
    /// The materialized row count.
    pub open spec fn rows(self) -> int {
        if self.table.len() > 0 {
            self.table[0].cells.len() as int
        } else {
            0
        }
    }

    /// Well-formedness: every column is well formed, all columns are equally
    /// tall, and every queued row has one cell per column, stored under that
    /// column's tag.
    pub open spec fn wf(self) -> bool {
        &&& forall|i: int| 0 <= i < self.table.len() ==> (#[trigger] self.table[i]).wf()
        &&& forall|i: int| 0 <= i < self.table.len() ==> (#[trigger] self.table[i]).cells.len() == self.rows()
        &&& forall|j: int| 0 <= j < self.pending.len() ==> (#[trigger] self.pending[j]).len() == self.table.len()
        &&& forall|j: int, i: int|
            0 <= j < self.pending.len() && 0 <= i < self.table.len()
                ==> (#[trigger] self.pending[j][i]).tag_spec() == self.table[i].dtype
    }

    /// One processing step: every queued row is appended to the columns in
    /// arrival order, the queue empties, and the materialization counter
    /// advances (saturating at its width).
    pub open spec fn step(self) -> NodeView {
        NodeView {
            table: Seq::new(
                self.table.len(),
                |i: int| ColumnView {
                    dtype: self.table[i].dtype,
                    cells: self.table[i].cells + column_slice(self.pending, i),
                },
            ),
            pending: Seq::empty(),
            steps: if self.steps < u64::MAX { (self.steps + 1) as u64 } else { self.steps },
            next_port: self.next_port,
        }
    }
}

/// Processing preserves well-formedness and materializes exactly the queued
/// rows: the row count grows by the number of queued rows and the queue
/// empties.
pub proof fn lemma_step_wf(v: NodeView)
    requires
        v.wf(),
    ensures
        v.step().wf(),
        v.table.len() > 0 ==> v.step().rows() == v.rows() + v.pending.len(),
        v.table.len() == 0 ==> v.step().rows() == 0,
        v.step().pending.len() == 0,
{
    let s = v.step();
    assert forall|i: int| 0 <= i < s.table.len() implies (#[trigger] s.table[i]).wf()
        && s.table[i].cells.len() == v.rows() + v.pending.len() by {
        assert(v.table[i].wf());
        assert forall|k: int| 0 <= k < s.table[i].cells.len()
            implies (#[trigger] s.table[i].cells[k]).tag_spec() == s.table[i].dtype by {
            if k < v.table[i].cells.len() {
                assert(s.table[i].cells[k] == v.table[i].cells[k]);
            } else {
                let j = k - v.table[i].cells.len();
                assert(s.table[i].cells[k] == column_slice(v.pending, i)[j]);
                assert(column_slice(v.pending, i)[j] == v.pending[j][i]);
            }
        }
    }
}

/// Processing a node whose queue is empty leaves every materialized column,
/// and so the row count, unchanged: processing is idempotent once the queue
/// has drained.
pub proof fn lemma_step_no_pending(v: NodeView)
    requires
        v.pending.len() == 0,
    ensures
        v.step().table == v.table,
        v.step().rows() == v.rows(),
{
    assert forall|i: int| 0 <= i < v.table.len() implies v.step().table[i] == v.table[i] by {
        assert(column_slice(v.pending, i) =~= Seq::<ScalarVal>::empty());
        assert(v.table[i].cells + column_slice(v.pending, i) =~= v.table[i].cells);
        assert(v.step().table[i] =~= v.table[i]);
    }
    assert(v.step().table =~= v.table);
}

/// A second processing step, with nothing queued in between, is a no-op on
/// the materialized data: columns and row count come out unchanged.
pub proof fn lemma_process_idempotent(v: NodeView)
    ensures
        v.step().step().table == v.step().table,
        v.step().step().rows() == v.step().rows(),
{
    lemma_step_no_pending(v.step());
}

/// The materialized columnar storage backing one node.
pub struct DataTable {
    columns: Vec<Column>,
}

impl View for DataTable {
    type V = Seq<ColumnView>;

    closed spec fn view(&self) -> Seq<ColumnView> {
        self.columns@.map_values(|c: Column| c@)
    }
}

/// One node of the dataflow graph: storage, queued input, a materialization
/// counter and a port allocator.
pub struct GNode {
    table: DataTable,
    pending: Vec<Vec<Scalar>>,
    steps: u64,
    next_port: usize,
}

impl View for GNode {
    type V = NodeView;

    closed spec fn view(&self) -> NodeView {
        NodeView {
            table: self.table@,
            pending: self.pending@.map_values(|r: Vec<Scalar>| r@.map_values(|s: Scalar| s@)),
            steps: self.steps,
            next_port: self.next_port,
        }
    }
}

impl GNode {
    /// A fresh node with one empty column per type, nothing queued, no
    /// processing step taken and no port handed out.
    pub(crate) fn new(types: &Vec<DType>) -> (r: GNode)
        requires
            forall|i: int| 0 <= i < types@.len() ==> (#[trigger] types@[i]).is_data_spec(),
        ensures
            r@.wf(),
            r@.table.len() == types@.len(),
            forall|i: int| 0 <= i < types@.len()
                ==> #[trigger] r@.table[i] == (ColumnView { dtype: types@[i], cells: Seq::<ScalarVal>::empty() }),
            r@.pending.len() == 0,
            r@.steps == 0,
            r@.next_port == 0,
            r@.rows() == 0,
    {
        let mut columns: Vec<Column> = Vec::new();
        let mut i: usize = 0;
        while i < types.len()
            invariant
                i <= types.len(),
                columns@.len() == i,
                forall|k: int| 0 <= k < types@.len() ==> (#[trigger] types@[k]).is_data_spec(),
                forall|k: int| 0 <= k < i
                    ==> (#[trigger] columns@[k])@ == (ColumnView { dtype: types@[k], cells: Seq::<ScalarVal>::empty() }),
            decreases types.len() - i,
        {
            columns.push(Column::empty(types[i]));
            i = i + 1;
        }
        let r = GNode { table: DataTable { columns }, pending: Vec::new(), steps: 0, next_port: 0 };
        proof {
            assert(r@.pending =~= Seq::<Seq<ScalarVal>>::empty());
        }
        r
    }

    /// The materialized row count.
    pub(crate) fn rows(&self) -> (r: usize)
        requires
            self@.wf(),
        ensures
            r == self@.rows(),
    {
        if self.table.columns.len() == 0 {
            0
        } else {
            self.table.columns[0].size()
        }
    }

    /// How many rows are queued and not yet materialized.
    pub(crate) fn pending_rows(&self) -> (r: usize)
        ensures
            r == self@.pending.len(),
    {
        self.pending.len()
    }

    /// The next port identifier that would be handed out.
    pub(crate) fn next_port_peek(&self) -> (r: usize)
        ensures
            r == self@.next_port,
    {
        self.next_port
    }

    /// The number of processing steps taken so far.
    pub(crate) fn steps_taken(&self) -> (r: u64)
        ensures
            r == self@.steps,
    {
        self.steps
    }

    /// Borrows the column at slot `i`.
    pub(crate) fn column_at(&self, i: usize) -> (r: &Column)
        requires
            i < self@.table.len(),
        ensures
            r@ == self@.table[i as int],
    {
        &self.table.columns[i]
    }

    /// Queues one row for the next processing step.
    pub(crate) fn enqueue(&mut self, row: Vec<Scalar>)
        requires
            old(self)@.wf(),
            row@.len() == old(self)@.table.len(),
            forall|i: int| 0 <= i < row@.len()
                ==> (#[trigger] row@[i])@.tag_spec() == old(self)@.table[i].dtype,
        ensures
            final(self)@.wf(),
            final(self)@ == (NodeView {
                pending: old(self)@.pending.push(row@.map_values(|s: Scalar| s@)),
                ..old(self)@
            }),
    {
        self.pending.push(row);
        proof {
            assert(self@.pending =~= old(self)@.pending.push(row@.map_values(|s: Scalar| s@)));
            assert(self@ =~= (NodeView {
                pending: old(self)@.pending.push(row@.map_values(|s: Scalar| s@)),
                ..old(self)@
            }));
        }
    }

    /// Allocates a fresh input port on this node. Port identifiers are
    /// handed out in increasing order and never reused while the node lives.
    pub(crate) fn make_port(&mut self) -> (r: usize)
        requires
            old(self)@.next_port < usize::MAX,
        ensures
            r == old(self)@.next_port,
            final(self)@ == (NodeView { next_port: (old(self)@.next_port + 1) as usize, ..old(self)@ }),
    {
        let r = self.next_port;
        self.next_port = self.next_port + 1;
        r
    }

    /// Materializes every queued row into the columns, in arrival order,
    /// drains the queue and advances the materialization counter.
    pub(crate) fn process(&mut self)
        requires
            old(self)@.wf(),
        ensures
            final(self)@.wf(),
            final(self)@ == old(self)@.step(),
    {
        let ghost v0 = self@;
        let n = self.table.columns.len();
        let m = self.pending.len();
        let mut newcols: Vec<Column> = Vec::new();
        let mut i: usize = 0;
        while i < n
            invariant
                v0.wf(),
                self@ == v0,
                v0.table.len() == n,
                n == self.table.columns@.len(),
                m == v0.pending.len(),
                i <= n,
                newcols@.len() == i,
                forall|k: int| 0 <= k < i ==> (#[trigger] newcols@[k])@ == v0.step().table[k],
            decreases n - i,
        {
            let mut col = self.table.columns[i].duplicate();
            proof {
                assert(self@.table[i as int] == self.table.columns@[i as int]@);
                assert(col@ == v0.table[i as int]);
                assert(v0.table[i as int].wf());
            }
            let ghost base = v0.table[i as int].cells.len() as int;
            let mut j: usize = 0;
            while j < m
                invariant
                    v0.wf(),
                    self@ == v0,
                    v0.table.len() == n,
                    m == v0.pending.len(),
                    i < n,
                    j <= m,
                    base == v0.table[i as int].cells.len(),
                    col@.dtype == v0.table[i as int].dtype,
                    col@.wf(),
                    col@.cells.len() == base + j,
                    forall|k: int| 0 <= k < base ==> #[trigger] col@.cells[k] == v0.table[i as int].cells[k],
                    forall|q: int| 0 <= q < j ==> #[trigger] col@.cells[base + q] == v0.pending[q][i as int],
                decreases m - j,
            {
                proof {
                    assert(self@.pending[j as int] == self.pending@[j as int]@.map_values(
                        |s: Scalar| s@,
                    ));
                    assert(self@.pending[j as int] == v0.pending[j as int]);
                    assert(v0.pending[j as int].len() == n);
                    assert(self.pending@[j as int]@.len() == n);
                }
                let cell = self.pending[j][i].duplicate();
                proof {
                    assert(cell@ == self@.pending[j as int][i as int]);
                    assert(cell@ == v0.pending[j as int][i as int]);
                    assert(cell@.tag_spec() == v0.table[i as int].dtype);
                }
                col.push_cell(cell);
                j = j + 1;
            }
            proof {
                let sc = v0.step().table[i as int];
                assert(sc.cells == v0.table[i as int].cells + column_slice(v0.pending, i as int));
                assert(column_slice(v0.pending, i as int).len() == m);
                assert forall|k: int| 0 <= k < col@.cells.len() implies col@.cells[k] == sc.cells[k] by {
                    if k < base {
                        assert(sc.cells[k] == v0.table[i as int].cells[k]);
                    } else {
                        let q = k - base;
                        assert(col@.cells[base + q] == v0.pending[q][i as int]);
                        assert(column_slice(v0.pending, i as int)[q] == v0.pending[q][i as int]);
                        assert(sc.cells[k] == column_slice(v0.pending, i as int)[q]);
                    }
                }
                assert(col@.cells =~= sc.cells);
                assert(col@ =~= sc);
            }
            newcols.push(col);
            i = i + 1;
        }
        self.table.columns = newcols;
        self.pending = Vec::new();
        if self.steps < u64::MAX {
            self.steps = self.steps + 1;
        }
        proof {
            assert(self@.pending =~= v0.step().pending);
            assert forall|k: int| 0 <= k < n implies self@.table[k] == v0.step().table[k] by {
                assert(self@.table[k] == self.table.columns@[k]@);
            }
            assert(self@.table =~= v0.step().table);
            assert(self@ =~= v0.step());
            lemma_step_wf(v0);
        }
    }
}

} // verus!
