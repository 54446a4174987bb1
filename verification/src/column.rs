//! A read accessor over one native typed data vector.
//!
//! A column carries one data tag of the registry for its whole lifetime, and
//! every cell it holds is stored under exactly that tag. Host code reads a
//! column either through the polymorphic [`Column::read`], which returns the
//! tagged union and so cannot mismatch reader and storage, or through a
//! width-specific accessor whose contract demands the matching tag.
//!
//! A column value handed out by a table is a read-only snapshot that shares
//! no state with the table; duplicating it is cheap and the duplicate is
//! indistinguishable from the original. No operation on a column mutates it.

use vstd::prelude::*;
use crate::dtype::DType;
use crate::error::BridgeError;
use crate::scalar::{Scalar, ScalarVal};

verus! {

/// The mathematical value of a [`Column`]: its tag and its cell contents.
#[verifier::ext_equal]
pub struct ColumnView {
    pub dtype: DType,
    pub cells: Seq<ScalarVal>,
}

impl ColumnView {
    /// Well-formedness: the tag is a data tag (never a sentinel) and every
    /// cell is stored under it.
    pub open spec fn wf(self) -> bool {
        &&& self.dtype.is_data_spec()
        &&& forall|i: int| 0 <= i < self.cells.len() ==> (#[trigger] self.cells[i]).tag_spec() == self.dtype
    }
}

/// A read-only view over one typed data vector.
pub struct Column {
    dtype: DType,
    cells: Vec<Scalar>,
}

impl View for Column {
    type V = ColumnView;

    closed spec fn view(&self) -> ColumnView {
        ColumnView { dtype: self.dtype, cells: self.cells@.map_values(|s: Scalar| s@) }
    }
}

impl Column {
    /// Well-formedness of the underlying storage; established at
    /// construction and preserved by every operation.
    pub open spec fn wf(self) -> bool {
        self@.wf()
    }

    /// An empty column stored under the given data tag.
    pub(crate) fn empty(dtype: DType) -> (r: Column)
        requires
            dtype.is_data_spec(),
        ensures
            r.wf(),
            r@ == (ColumnView { dtype, cells: Seq::<ScalarVal>::empty() }),
    {
        let r = Column { dtype, cells: Vec::new() };
        proof {
            assert(r@.cells =~= Seq::<ScalarVal>::empty());
        }
        r
    }

    /// Appends one cell stored under this column's tag. This is the engine
    /// side of materialization; host code has no mutating access.
    pub(crate) fn push_cell(&mut self, s: Scalar)
        requires
            old(self).wf(),
            s.tag_spec() == old(self)@.dtype,
        ensures
            final(self).wf(),
            final(self)@ == (ColumnView { dtype: old(self)@.dtype, cells: old(self)@.cells.push(s@) }),
    {
        self.cells.push(s);
        proof {
            assert(self@.cells =~= old(self)@.cells.push(s@));
        }
    }

    /// Borrows the cell at `idx`.
    pub(crate) fn cell_at(&self, idx: usize) -> (r: &Scalar)
        requires
            idx < self@.cells.len(),
        ensures
            r@ == self@.cells[idx as int],
    {
        proof {
            assert(self.cells@.len() == self@.cells.len());
        }
        &self.cells[idx]
    }

    /// The number of cells this column holds.
    pub fn size(&self) -> (r: usize)
        ensures
            r == self@.cells.len(),
    {
        self.cells.len()
    }

    /// The registry tag this column's cells are stored under.
    pub fn get_dtype(&self) -> (r: DType)
        ensures
            r == self@.dtype,
    {
        self.dtype
    }

    /// The tag under its stable text label.
    pub fn get_dtype_string(&self) -> (r: String)
        ensures
            r@ == self@.dtype.label_spec(),
    {
        self.dtype.label()
    }

    /// Reads the cell at `idx` as a tagged scalar, so that the caller cannot
    /// pick a reader of the wrong width. Fails with `OutOfBounds`, and only
    /// then, when `idx` is at or past the column's length.
    pub fn read(&self, idx: usize) -> (r: Result<Scalar, BridgeError>)
        ensures
            r is Ok <==> idx < self@.cells.len(),
            r is Ok ==> r->Ok_0@ == self@.cells[idx as int],
            r is Err ==> r->Err_0 == BridgeError::OutOfBounds,
    {
        if idx < self.cells.len() {
            Ok(self.cells[idx].duplicate())
        } else {
            Err(BridgeError::OutOfBounds)
        }
    }

    /// Reads the cell at `idx` of a 32-bit unsigned column. Fails with
    /// `OutOfBounds`, and only then, when `idx` is at or past the length.
    pub fn get_u32(&self, idx: usize) -> (r: Result<u32, BridgeError>)
        requires
            self.wf(),
            self@.dtype == DType::DTYPE_UINT32,
        ensures
            r is Ok <==> idx < self@.cells.len(),
            r is Ok ==> self@.cells[idx as int] == ScalarVal::U32(r->Ok_0),
            r is Err ==> r->Err_0 == BridgeError::OutOfBounds,
    {
        if idx < self.cells.len() {
            match &self.cells[idx] {
                Scalar::U32(x) => Ok(*x),
                _ => {
                    proof {
                        assert(self@.cells[idx as int].tag_spec() == DType::DTYPE_UINT32);
                        assert(false);
                    }
                    Err(BridgeError::OutOfBounds)
                },
            }
        } else {
            Err(BridgeError::OutOfBounds)
        }
    }

    /// Reads the cell at `idx` of a 64-bit unsigned column. Fails with
    /// `OutOfBounds`, and only then, when `idx` is at or past the length.
    pub fn get_u64(&self, idx: usize) -> (r: Result<u64, BridgeError>)
        requires
            self.wf(),
            self@.dtype == DType::DTYPE_UINT64,
        ensures
            r is Ok <==> idx < self@.cells.len(),
            r is Ok ==> self@.cells[idx as int] == ScalarVal::U64(r->Ok_0),
            r is Err ==> r->Err_0 == BridgeError::OutOfBounds,
    {
        if idx < self.cells.len() {
            match &self.cells[idx] {
                Scalar::U64(x) => Ok(*x),
                _ => {
                    proof {
                        assert(self@.cells[idx as int].tag_spec() == DType::DTYPE_UINT64);
                        assert(false);
                    }
                    Err(BridgeError::OutOfBounds)
                },
            }
        } else {
            Err(BridgeError::OutOfBounds)
        }
    }

    /// Reads the cell at `idx` of a 32-bit signed column. Fails with
    /// `OutOfBounds`, and only then, when `idx` is at or past the length.
    pub fn get_i32(&self, idx: usize) -> (r: Result<i32, BridgeError>)
        requires
            self.wf(),
            self@.dtype == DType::DTYPE_INT32,
        ensures
            r is Ok <==> idx < self@.cells.len(),
            r is Ok ==> self@.cells[idx as int] == ScalarVal::I32(r->Ok_0),
            r is Err ==> r->Err_0 == BridgeError::OutOfBounds,
    {
        if idx < self.cells.len() {
            match &self.cells[idx] {
                Scalar::I32(x) => Ok(*x),
                _ => {
                    proof {
                        assert(self@.cells[idx as int].tag_spec() == DType::DTYPE_INT32);
                        assert(false);
                    }
                    Err(BridgeError::OutOfBounds)
                },
            }
        } else {
            Err(BridgeError::OutOfBounds)
        }
    }

    /// Reads the cell at `idx` of a 64-bit signed column. Fails with
    /// `OutOfBounds`, and only then, when `idx` is at or past the length.
    pub fn get_i64(&self, idx: usize) -> (r: Result<i64, BridgeError>)
        requires
            self.wf(),
            self@.dtype == DType::DTYPE_INT64,
        ensures
            r is Ok <==> idx < self@.cells.len(),
            r is Ok ==> self@.cells[idx as int] == ScalarVal::I64(r->Ok_0),
            r is Err ==> r->Err_0 == BridgeError::OutOfBounds,
    {
        if idx < self.cells.len() {
            match &self.cells[idx] {
                Scalar::I64(x) => Ok(*x),
                _ => {
                    proof {
                        assert(self@.cells[idx as int].tag_spec() == DType::DTYPE_INT64);
                        assert(false);
                    }
                    Err(BridgeError::OutOfBounds)
                },
            }
        } else {
            Err(BridgeError::OutOfBounds)
        }
    }

    /// Duplicates this handle's contents. Models the shared-ownership
    /// category of the bridge: a column handle is duplicable at will and the
    /// duplicate reads exactly the same data.
    pub fn duplicate(&self) -> (r: Column)
        ensures
            r@ == self@,
    {
        let mut cells: Vec<Scalar> = Vec::new();
        let mut i: usize = 0;
        while i < self.cells.len()
            invariant
                i <= self.cells.len(),
                cells@.len() == i,
                forall|k: int| 0 <= k < i ==> (#[trigger] cells@[k])@ == self@.cells[k],
            decreases self.cells.len() - i,
        {
            cells.push(self.cells[i].duplicate());
            i = i + 1;
        }
        let r = Column { dtype: self.dtype, cells };
        proof {
            assert(r@.cells =~= self@.cells);
        }
        r
    }
}

} // verus!
