//! The tagged scalar union returned by column reads.
//!
//! A single polymorphic read returns one of these instead of asking the
//! caller to pick a width-specific accessor, so a caller can never read a
//! column's storage through a reader of the wrong width. Every variant maps
//! to exactly one type tag of the registry; `Absent` (tag `DTYPE_NONE`)
//! stands for a missing value and is never stored in a live column.
//!
//! Floating-point kinds are carried as their raw bit patterns: the bridge
//! moves such values across the boundary, it never computes with them.

use vstd::prelude::*;
use crate::dtype::DType;

verus! {

/// One scalar value, tagged with its storage kind.
#[derive(Debug, PartialEq)]
pub enum Scalar {
    /// A missing value; never the content of a live column cell.
    Absent,
    I64(i64),
    I32(i32),
    I16(i16),
    I8(i8),
    U64(u64),
    U32(u32),
    U16(u16),
    U8(u8),
    /// The raw bit pattern of a 64-bit IEEE value.
    F64Bits(u64),
    /// The raw bit pattern of a 32-bit IEEE value.
    F32Bits(u32),
    Bool(bool),
    /// A timestamp, as the engine's signed 64-bit epoch count.
    Time(i64),
    /// A calendar date, as the engine's packed 32-bit day encoding.
    Date(i32),
    /// An enumerated value, by its 32-bit code.
    Enum(u32),
    /// An object identifier.
    Oid(u64),
    /// An opaque native object, by its handle number.
    Object(u64),
    /// A pair of raw 64-bit IEEE bit patterns.
    F64Pair(u64, u64),
    /// A user-defined fixed-width payload.
    UserFixed(Vec<u8>),
    Str(String),
    /// A user-defined variable-length payload.
    UserVlen(Vec<u8>),
}

/// The mathematical value of a [`Scalar`]: payloads of variable length are
/// abstracted to sequences, everything else kept as is.
pub enum ScalarVal {
    Absent,
    I64(i64),
    I32(i32),
    I16(i16),
    I8(i8),
    U64(u64),
    U32(u32),
    U16(u16),
    U8(u8),
    F64Bits(u64),
    F32Bits(u32),
    Bool(bool),
    Time(i64),
    Date(i32),
    Enum(u32),
    Oid(u64),
    Object(u64),
    F64Pair(u64, u64),
    UserFixed(Seq<u8>),
    Str(Seq<char>),
    UserVlen(Seq<u8>),
}

impl ScalarVal {
    /// The registry tag a value of this shape is stored under.
    pub open spec fn tag_spec(self) -> DType {
        match self {
            ScalarVal::Absent => DType::DTYPE_NONE,
            ScalarVal::I64(_) => DType::DTYPE_INT64,
            ScalarVal::I32(_) => DType::DTYPE_INT32,
            ScalarVal::I16(_) => DType::DTYPE_INT16,
            ScalarVal::I8(_) => DType::DTYPE_INT8,
            ScalarVal::U64(_) => DType::DTYPE_UINT64,
            ScalarVal::U32(_) => DType::DTYPE_UINT32,
            ScalarVal::U16(_) => DType::DTYPE_UINT16,
            ScalarVal::U8(_) => DType::DTYPE_UINT8,
            ScalarVal::F64Bits(_) => DType::DTYPE_FLOAT64,
            ScalarVal::F32Bits(_) => DType::DTYPE_FLOAT32,
            ScalarVal::Bool(_) => DType::DTYPE_BOOL,
            ScalarVal::Time(_) => DType::DTYPE_TIME,
            ScalarVal::Date(_) => DType::DTYPE_DATE,
            ScalarVal::Enum(_) => DType::DTYPE_ENUM,
            ScalarVal::Oid(_) => DType::DTYPE_OID,
            ScalarVal::Object(_) => DType::DTYPE_OBJECT,
            ScalarVal::F64Pair(_, _) => DType::DTYPE_F64PAIR,
            ScalarVal::UserFixed(_) => DType::DTYPE_USER_FIXED,
            ScalarVal::Str(_) => DType::DTYPE_STR,
            ScalarVal::UserVlen(_) => DType::DTYPE_USER_VLEN,
        }
    }
}

impl View for Scalar {
    type V = ScalarVal;

    open spec fn view(&self) -> ScalarVal {
        match self {
            Scalar::Absent => ScalarVal::Absent,
            Scalar::I64(x) => ScalarVal::I64(*x),
            Scalar::I32(x) => ScalarVal::I32(*x),
            Scalar::I16(x) => ScalarVal::I16(*x),
            Scalar::I8(x) => ScalarVal::I8(*x),
            Scalar::U64(x) => ScalarVal::U64(*x),
            Scalar::U32(x) => ScalarVal::U32(*x),
            Scalar::U16(x) => ScalarVal::U16(*x),
            Scalar::U8(x) => ScalarVal::U8(*x),
            Scalar::F64Bits(x) => ScalarVal::F64Bits(*x),
            Scalar::F32Bits(x) => ScalarVal::F32Bits(*x),
            Scalar::Bool(x) => ScalarVal::Bool(*x),
            Scalar::Time(x) => ScalarVal::Time(*x),
            Scalar::Date(x) => ScalarVal::Date(*x),
            Scalar::Enum(x) => ScalarVal::Enum(*x),
            Scalar::Oid(x) => ScalarVal::Oid(*x),
            Scalar::Object(x) => ScalarVal::Object(*x),
            Scalar::F64Pair(a, b) => ScalarVal::F64Pair(*a, *b),
            Scalar::UserFixed(v) => ScalarVal::UserFixed(v@),
            Scalar::Str(s) => ScalarVal::Str(s@),
            Scalar::UserVlen(v) => ScalarVal::UserVlen(v@),
        }
    }
}

impl Scalar {
    /// The registry tag this value is stored under.
    pub open spec fn tag_spec(self) -> DType {
        self@.tag_spec()
    }

    /// Reports the registry tag this value is stored under.
    pub fn tag(&self) -> (r: DType)
        ensures
            r == self.tag_spec(),
    {
        match self {
            Scalar::Absent => DType::DTYPE_NONE,
            Scalar::I64(_) => DType::DTYPE_INT64,
            Scalar::I32(_) => DType::DTYPE_INT32,
            Scalar::I16(_) => DType::DTYPE_INT16,
            Scalar::I8(_) => DType::DTYPE_INT8,
            Scalar::U64(_) => DType::DTYPE_UINT64,
            Scalar::U32(_) => DType::DTYPE_UINT32,
            Scalar::U16(_) => DType::DTYPE_UINT16,
            Scalar::U8(_) => DType::DTYPE_UINT8,
            Scalar::F64Bits(_) => DType::DTYPE_FLOAT64,
            Scalar::F32Bits(_) => DType::DTYPE_FLOAT32,
            Scalar::Bool(_) => DType::DTYPE_BOOL,
            Scalar::Time(_) => DType::DTYPE_TIME,
            Scalar::Date(_) => DType::DTYPE_DATE,
            Scalar::Enum(_) => DType::DTYPE_ENUM,
            Scalar::Oid(_) => DType::DTYPE_OID,
            Scalar::Object(_) => DType::DTYPE_OBJECT,
            Scalar::F64Pair(_, _) => DType::DTYPE_F64PAIR,
            Scalar::UserFixed(_) => DType::DTYPE_USER_FIXED,
            Scalar::Str(_) => DType::DTYPE_STR,
            Scalar::UserVlen(_) => DType::DTYPE_USER_VLEN,
        }
    }

    /// Copies this value. Models cheap duplication of a scalar as it crosses
    /// the bridge boundary; the copy is indistinguishable from the original.
    pub fn duplicate(&self) -> (r: Scalar)
        ensures
            r@ == self@,
    {
        match self {
            Scalar::Absent => Scalar::Absent,
            Scalar::I64(x) => Scalar::I64(*x),
            Scalar::I32(x) => Scalar::I32(*x),
            Scalar::I16(x) => Scalar::I16(*x),
            Scalar::I8(x) => Scalar::I8(*x),
            Scalar::U64(x) => Scalar::U64(*x),
            Scalar::U32(x) => Scalar::U32(*x),
            Scalar::U16(x) => Scalar::U16(*x),
            Scalar::U8(x) => Scalar::U8(*x),
            Scalar::F64Bits(x) => Scalar::F64Bits(*x),
            Scalar::F32Bits(x) => Scalar::F32Bits(*x),
            Scalar::Bool(x) => Scalar::Bool(*x),
            Scalar::Time(x) => Scalar::Time(*x),
            Scalar::Date(x) => Scalar::Date(*x),
            Scalar::Enum(x) => Scalar::Enum(*x),
            Scalar::Oid(x) => Scalar::Oid(*x),
            Scalar::Object(x) => Scalar::Object(*x),
            Scalar::F64Pair(a, b) => Scalar::F64Pair(*a, *b),
            Scalar::UserFixed(v) => Scalar::UserFixed(copy_bytes(v)),
            Scalar::Str(s) => Scalar::Str(s.clone()),
            Scalar::UserVlen(v) => Scalar::UserVlen(copy_bytes(v)),
        }
    }

    /// A value that may live in a column cell carries a data tag, never the
    /// `DTYPE_LAST*` end markers; only `Absent` carries the `DTYPE_NONE` tag.
    pub proof fn lemma_tag_in_registry(self)
        ensures
            self.tag_spec() != DType::DTYPE_LAST,
            self.tag_spec() != DType::DTYPE_LAST_VLEN,
            self != Scalar::Absent ==> self.tag_spec().is_data_spec(),
            self == Scalar::Absent ==> self.tag_spec() == DType::DTYPE_NONE,
    {
    }
}

/// Copies a byte payload element by element.
fn copy_bytes(v: &Vec<u8>) -> (r: Vec<u8>)
    ensures
        r@ == v@,
{
    let mut r: Vec<u8> = Vec::new();
    let mut i: usize = 0;
    while i < v.len()
        invariant
            i <= v.len(),
            r@ == v@.subrange(0, i as int),
        decreases v.len() - i,
    {
        r.push(v[i]);
        proof {
            assert(r@ =~= v@.subrange(0, i as int + 1));
        }
        i = i + 1;
    }
    proof {
        assert(r@ =~= v@);
    }
    r
}

} // verus!
