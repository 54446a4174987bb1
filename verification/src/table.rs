//! The externally visible table: a named, typed, size-bounded dataset.
//!
//! A table owns the handle to exactly one computation node. Its shape
//! (ordered unique column names, matching type tags, a row-count limit and a
//! designated index column) is validated once at construction and never
//! changes. All writes go through ports and the processing step, the only
//! sanctioned mutation path; reads reflect the last processing step.
//!
//! Host-side synchronization policy: a table value is mutated only through
//! `&mut` operations (`process`, `write_port`, `make_port`), so Rust's
//! ownership rules serialize processing against reads; a column handed out
//! by [`Table::get_column`] is a snapshot that no later processing changes.

use vstd::prelude::*;
use vstd::string::StringExecFns;
use crate::column::Column;
use crate::dtype::DType;
use crate::error::BridgeError;
use crate::node::{GNode, NodeView};
use crate::scalar::Scalar;
use crate::schema::{
    contains_name, copy_names, distinct_names, find_name, has_duplicate, index_of_name, Schema,
    SchemaView,
};

verus! {

/// The mathematical value of a [`Table`].
#[verifier::ext_equal]
pub struct TableView {
    /// The declared shape: ordered unique names and their type tags.
    pub schema: SchemaView,
    /// The row-count cap supplied at construction.
    pub limit: u32,
    /// The designated index column, for upsert-by-key in the engine.
    pub index: Seq<char>,
    /// The computation node this table owns a handle to.
    pub node: NodeView,
}

impl TableView {
    /// Well-formedness: the shape is valid, the index column exists, the
    /// node's columns mirror the declared types one for one, and the
    /// materialized plus queued rows stay within the limit.
    pub open spec fn wf(self) -> bool {
        &&& self.schema.wf()
        &&& contains_name(self.schema.names, self.index)
        &&& self.node.wf()
        &&& self.node.table.len() == self.schema.types.len()
        &&& forall|i: int| 0 <= i < self.node.table.len()
            ==> (#[trigger] self.node.table[i]).dtype == self.schema.types[i]
        &&& self.node.rows() + self.node.pending.len() <= self.limit
    }
}

/// A valid construction configuration: one type per name, no duplicate
/// name, and the index column among the names.
pub open spec fn valid_config(names: Seq<Seq<char>>, types: Seq<DType>, index: Seq<char>) -> bool {
    &&& names.len() == types.len()
    &&& distinct_names(names)
    &&& contains_name(names, index)
}

/// A named, typed, size-bounded dataset backed by one computation node.
pub struct Table {
    names: Vec<String>,
    types: Vec<DType>,
    limit: u32,
    index: String,
    node: GNode,
}

impl View for Table {
    type V = TableView;

    closed spec fn view(&self) -> TableView {
        TableView {
            schema: SchemaView { names: self.names.deep_view(), types: self.types@ },
            limit: self.limit,
            index: self.index@,
            node: self.node@,
        }
    }
}

impl Table {
    /// Well-formedness; established by [`Table::new`] and preserved by every
    /// operation.
    pub open spec fn wf(self) -> bool {
        self@.wf()
    }

    /// Builds a table from an explicit configuration. Succeeds exactly on a
    /// valid configuration and starts empty: no materialized row, nothing
    /// queued, no processing step taken, no port handed out. Rejects, in
    /// this order of checks, mismatched sequence lengths, a duplicated
    /// column name, and an index column that is not among the names.
    ///
    /// Sentinel type tags would corrupt every later read dispatch, so they
    /// are excluded up front rather than reported as a recoverable error.
    pub fn new(column_names: Vec<String>, data_types: Vec<DType>, limit: u32, index: String) -> (r:
        Result<Table, BridgeError>)
        requires
            forall|i: int| 0 <= i < data_types@.len() ==> (#[trigger] data_types@[i]).is_data_spec(),
        ensures
            r is Ok <==> valid_config(column_names.deep_view(), data_types@, index@),
            r is Ok ==> {
                let t = r->Ok_0;
                &&& t.wf()
                &&& t@.schema == (SchemaView {
                    names: column_names.deep_view(),
                    types: data_types@,
                })
                &&& t@.limit == limit
                &&& t@.index == index@
                &&& t@.node.rows() == 0
                &&& t@.node.pending.len() == 0
                &&& t@.node.steps == 0
                &&& t@.node.next_port == 0
            },
            column_names.deep_view().len() != data_types@.len() ==> r == Err::<Table, BridgeError>(
                BridgeError::MismatchedLengths,
            ),
            column_names.deep_view().len() == data_types@.len() && !distinct_names(
                column_names.deep_view(),
            ) ==> r == Err::<Table, BridgeError>(BridgeError::DuplicateName),
            column_names.deep_view().len() == data_types@.len() && distinct_names(
                column_names.deep_view(),
            ) && !contains_name(column_names.deep_view(), index@) ==> r == Err::<
                Table,
                BridgeError,
            >(BridgeError::UnknownIndexColumn),
    {
        if column_names.len() != data_types.len() {
            return Err(BridgeError::MismatchedLengths);
        }
        if has_duplicate(&column_names) {
            return Err(BridgeError::DuplicateName);
        }
        match find_name(&column_names, index.as_str()) {
            None => Err(BridgeError::UnknownIndexColumn),
            Some(_) => {
                let node = GNode::new(&data_types);
                let t = Table { names: column_names, types: data_types, limit, index, node };
                proof {
                    assert(t@.schema.names.len() == t@.schema.types.len());
                }
                Ok(t)
            },
        }
    }

    /// The materialized row count, as of the last processing step.
    pub fn size(&self) -> (r: usize)
        requires
            self.wf(),
        ensures
            r == self@.node.rows(),
    {
        self.node.rows()
    }

    /// How many input rows are queued and not yet materialized.
    pub fn pending_rows(&self) -> (r: usize)
        ensures
            r == self@.node.pending.len(),
    {
        self.node.pending_rows()
    }

    /// How many ports have been allocated so far; the next port gets this
    /// identifier.
    pub fn ports_made(&self) -> (r: usize)
        ensures
            r == self@.node.next_port,
    {
        self.node.next_port_peek()
    }

    /// How many processing steps this table's node has completed. The
    /// counter never decreases; reads are well defined once it is positive.
    pub fn steps_taken(&self) -> (r: u64)
        ensures
            r == self@.node.steps,
    {
        self.node.steps_taken()
    }

    /// Triggers the node to materialize all queued input, in arrival order.
    /// Leaves the shape untouched, drains the queue and advances the
    /// materialization counter; with nothing queued it is a no-op on the
    /// materialized data.
    pub fn process(&mut self)
        requires
            old(self).wf(),
        ensures
            final(self).wf(),
            final(self)@ == (TableView { node: old(self)@.node.step(), ..old(self)@ }),
    {
        proof {
            crate::node::lemma_step_wf(self@.node);
        }
        self.node.process();
        proof {
            assert(final(self)@ =~= (TableView { node: old(self)@.node.step(), ..old(self)@ }));
        }
    }

    /// Allocates a fresh input port on the node: identifiers are handed out
    /// in increasing order, starting at zero, and never reused while the
    /// table lives.
    pub fn make_port(&mut self) -> (r: usize)
        requires
            old(self).wf(),
            old(self)@.node.next_port < usize::MAX,
        ensures
            final(self).wf(),
            r == old(self)@.node.next_port,
            final(self)@ == (TableView {
                node: (NodeView { next_port: (old(self)@.node.next_port + 1) as usize, ..old(self)@.node }),
                ..old(self)@
            }),
    {
        self.node.make_port()
    }

    /// Queues one row on an already allocated port for the next processing
    /// step. Succeeds exactly when the port exists, the row has one cell per
    /// column, every cell is stored under its column's tag, and the row fits
    /// under the limit; checked in that order. On failure nothing changes.
    pub fn write_port(&mut self, port: usize, row: Vec<Scalar>) -> (r: Result<(), BridgeError>)
        requires
            old(self).wf(),
        ensures
            final(self).wf(),
            r is Ok <==> {
                &&& port < old(self)@.node.next_port
                &&& row@.len() == old(self)@.schema.names.len()
                &&& (forall|i: int| 0 <= i < row@.len()
                    ==> (#[trigger] row@[i])@.tag_spec() == old(self)@.schema.types[i])
                &&& old(self)@.node.rows() + old(self)@.node.pending.len() < old(self)@.limit
            },
            r is Ok ==> final(self)@ == (TableView {
                node: (NodeView {
                    pending: old(self)@.node.pending.push(row@.map_values(|s: Scalar| s@)),
                    ..old(self)@.node
                }),
                ..old(self)@
            }),
            r is Err ==> final(self)@ == old(self)@,
            port >= old(self)@.node.next_port ==> r == Err::<(), BridgeError>(BridgeError::NotFound),
            port < old(self)@.node.next_port && row@.len() != old(self)@.schema.names.len() ==> r
                == Err::<(), BridgeError>(BridgeError::MismatchedLengths),
            port < old(self)@.node.next_port && row@.len() == old(self)@.schema.names.len() && !(
            forall|i: int|
                0 <= i < row@.len() ==> (#[trigger] row@[i])@.tag_spec()
                    == old(self)@.schema.types[i]) ==> r == Err::<(), BridgeError>(
                BridgeError::MismatchedType,
            ),
            port < old(self)@.node.next_port && row@.len() == old(self)@.schema.names.len() && (
            forall|i: int|
                0 <= i < row@.len() ==> (#[trigger] row@[i])@.tag_spec()
                    == old(self)@.schema.types[i]) && old(self)@.node.rows()
                + old(self)@.node.pending.len() >= old(self)@.limit ==> r == Err::<
                (),
                BridgeError,
            >(BridgeError::LimitExceeded),
    {
        if port >= self.node.next_port_peek() {
            return Err(BridgeError::NotFound);
        }
        if row.len() != self.names.len() {
            return Err(BridgeError::MismatchedLengths);
        }
        let mut i: usize = 0;
        while i < row.len()
            invariant
                self == old(self),
                old(self).wf(),
                port < old(self)@.node.next_port,
                i <= row@.len(),
                row@.len() == old(self)@.schema.types.len(),
                forall|k: int| 0 <= k < i
                    ==> (#[trigger] row@[k])@.tag_spec() == old(self)@.schema.types[k],
            decreases row@.len() - i,
        {
            let want = self.types[i];
            let got = row[i].tag();
            if got != want {
                return Err(BridgeError::MismatchedType);
            }
            i = i + 1;
        }
        let used: u64 = self.node.rows() as u64 + self.node.pending_rows() as u64;
        if used >= self.limit as u64 {
            return Err(BridgeError::LimitExceeded);
        }
        proof {
            assert(forall|k: int| 0 <= k < row@.len()
                ==> (#[trigger] row@[k])@.tag_spec() == self@.node.table[k].dtype);
        }
        self.node.enqueue(row);
        proof {
            assert(final(self)@ =~= (TableView {
                node: (NodeView {
                    pending: old(self)@.node.pending.push(row@.map_values(|s: Scalar| s@)),
                    ..old(self)@.node
                }),
                ..old(self)@
            }));
        }
        Ok(())
    }

    /// Looks a column up by name and hands out a read-only snapshot of it.
    /// Succeeds exactly when the name is in the schema; otherwise fails with
    /// `NotFound` and hands out nothing.
    pub fn get_column(&self, name: &str) -> (r: Result<Column, BridgeError>)
        requires
            self.wf(),
        ensures
            r is Ok <==> contains_name(self@.schema.names, name@),
            r is Ok ==> r->Ok_0.wf() && r->Ok_0@ == self@.node.table[index_of_name(
                self@.schema.names,
                name@,
            )],
            r is Err ==> r->Err_0 == BridgeError::NotFound,
    {
        match find_name(&self.names, name) {
            None => Err(BridgeError::NotFound),
            Some(i) => {
                proof {
                    let names = self@.schema.names;
                    assert(contains_name(names, name@));
                    let j = index_of_name(names, name@);
                    assert(names[j] == name@ && 0 <= j < names.len());
                    assert(names[i as int] == name@);
                    assert(i as int == j);
                }
                let col = self.node.column_at(i).duplicate();
                Ok(col)
            },
        }
    }

    /// The type tag of the named column, under its stable text label.
    /// Succeeds exactly when the name is in the schema.
    pub fn get_col_dtype(&self, col: String) -> (r: Result<String, BridgeError>)
        requires
            self.wf(),
        ensures
            r is Ok <==> contains_name(self@.schema.names, col@),
            r is Ok ==> r->Ok_0@ == self@.schema.types[index_of_name(
                self@.schema.names,
                col@,
            )].label_spec(),
            r is Err ==> r->Err_0 == BridgeError::NotFound,
    {
        match self.get_column(col.as_str()) {
            Err(e) => Err(e),
            Ok(c) => Ok(c.get_dtype_string()),
        }
    }

    /// A snapshot of this table's shape.
    pub fn schema(&self) -> (r: Schema)
        requires
            self.wf(),
        ensures
            r.wf(),
            r@ == self@.schema,
    {
        let names = copy_names(&self.names);
        let types = crate::schema::copy_types(&self.types);
        let s = Schema::new_unchecked(names, types);
        proof {
            assert(s@ =~= self@.schema);
        }
        s
    }

    /// The column names, in declaration order.
    pub fn columns(&self) -> (r: Vec<String>)
        requires
            self.wf(),
        ensures
            r.deep_view() == self@.schema.names,
    {
        copy_names(&self.names)
    }

    /// Renders the header line and up to `num_rows` rows as diagnostic
    /// text, exactly as [`crate::render::render_spec`] states.
    pub fn pretty_print(&self, num_rows: usize) -> (r: String)
        requires
            self.wf(),
        ensures
            r@ == crate::render::render_spec(self@, num_rows as int),
    {
        let ghost names_v = self@.schema.names;
        let ghost types_v = self@.schema.types;
        let n = self.names.len();
        let mut s = String::new();
        let mut i: usize = 0;
        while i < n
            invariant
                self.wf(),
                names_v == self@.schema.names,
                types_v == self@.schema.types,
                n == names_v.len(),
                n == self.names@.len(),
                n == self.types@.len(),
                i <= n,
                s@ == crate::render::header_prefix(names_v, types_v, i as int),
            decreases n - i,
        {
            if i > 0 {
                s.append("|");
            } else {
                proof {
                    assert(s@ =~= crate::render::header_prefix(names_v, types_v, i as int)
                        + Seq::<char>::empty());
                }
            }
            s.append(self.names[i].as_str());
            s.append(":");
            let lbl = self.types[i].label();
            s.append(lbl.as_str());
            proof {
                assert(self.names@[i as int]@ == names_v[i as int]);
                assert(s@ =~= crate::render::header_prefix(names_v, types_v, i as int + 1));
            }
            i = i + 1;
        }
        s.append("\n");
        let ghost head = s@;
        let total = self.node.rows();
        let rcount = if num_rows < total {
            num_rows
        } else {
            total
        };
        let mut rr: usize = 0;
        while rr < rcount
            invariant
                self.wf(),
                names_v == self@.schema.names,
                n == names_v.len(),
                n == self.names@.len(),
                n == self@.node.table.len(),
                rcount <= self@.node.rows(),
                rr <= rcount,
                s@ == head + crate::render::rows_prefix(self@.node.table, rr as int),
            decreases rcount - rr,
        {
            let mut i: usize = 0;
            while i < n
                invariant
                    self.wf(),
                    n == self@.node.table.len(),
                    rcount <= self@.node.rows(),
                    rr < rcount,
                    i <= n,
                    s@ == head + crate::render::rows_prefix(self@.node.table, rr as int)
                        + crate::render::row_prefix(self@.node.table, rr as int, i as int),
                decreases n - i,
            {
                if i > 0 {
                    s.append("|");
                } else {
                    proof {
                        assert(s@ =~= s@ + Seq::<char>::empty());
                    }
                }
                let col = self.node.column_at(i);
                proof {
                    assert(col@.cells.len() == self@.node.rows());
                }
                let cell = col.cell_at(rr);
                let txt = crate::render::render_scalar(cell);
                s.append(txt.as_str());
                proof {
                    assert(s@ =~= head + crate::render::rows_prefix(self@.node.table, rr as int)
                        + crate::render::row_prefix(self@.node.table, rr as int, i as int + 1));
                }
                i = i + 1;
            }
            s.append("\n");
            proof {
                assert(s@ =~= head + crate::render::rows_prefix(self@.node.table, rr as int + 1));
            }
            rr = rr + 1;
        }
        proof {
            assert(rcount as int == (if (num_rows as int) < self@.node.rows() {
                num_rows as int
            } else {
                self@.node.rows()
            }));
            assert(s@ =~= crate::render::render_spec(self@, num_rows as int));
        }
        s
    }

    /// Ingestion adapter, specified in shape only: always fails with
    /// `NotImplemented` until backed by a real parser.
    pub fn from_csv(csv: String) -> (r: Result<Table, BridgeError>)
        ensures
            r == Err::<Table, BridgeError>(BridgeError::NotImplemented),
    {
        let _ = csv;
        Err(BridgeError::NotImplemented)
    }

    /// Ingestion adapter, specified in shape only: always fails with
    /// `NotImplemented` until backed by a real parser.
    pub fn from_arrow(bytes: Vec<u8>) -> (r: Result<Table, BridgeError>)
        ensures
            r == Err::<Table, BridgeError>(BridgeError::NotImplemented),
    {
        let _ = bytes;
        Err(BridgeError::NotImplemented)
    }

    /// Ingestion adapter, specified in shape only: always fails with
    /// `NotImplemented` until backed by a real parser.
    pub fn from_json(json: String) -> (r: Result<Table, BridgeError>)
        ensures
            r == Err::<Table, BridgeError>(BridgeError::NotImplemented),
    {
        let _ = json;
        Err(BridgeError::NotImplemented)
    }
}

/// A column looked up by name reports exactly the type tag supplied for
/// that name at construction: the tag supplied under a name is the tag
/// every read of that column dispatches on.
pub proof fn lemma_dtype_round_trip(t: TableView, name: Seq<char>)
    requires
        t.wf(),
        contains_name(t.schema.names, name),
    ensures
        0 <= index_of_name(t.schema.names, name) < t.schema.names.len(),
        t.node.table[index_of_name(t.schema.names, name)].dtype == t.schema.types[index_of_name(
            t.schema.names,
            name,
        )],
        t.node.table[index_of_name(t.schema.names, name)].dtype.is_data_spec(),
{
    let i = index_of_name(t.schema.names, name);
    assert(0 <= i < t.schema.names.len() && t.schema.names[i] == name);
    assert(t.schema.types[i].is_data_spec());
}

} // verus!
