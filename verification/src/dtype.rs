//! The closed registry of scalar type tags.
//!
//! Every column of the native engine carries exactly one of these tags for
//! its whole lifetime. `DTYPE_NONE` stands for the absence of a type and the
//! two `DTYPE_LAST*` markers bound the range of valid tags; none of the three
//! may ever be the reported type of a live column.

use vstd::prelude::*;

verus! {

/// A column's scalar storage kind. Closed: the engine defines no others.
#[allow(non_camel_case_types)]
#[derive(Clone, Copy, Debug, PartialEq, Eq, Structural)]
pub enum DType {
    DTYPE_NONE,
    DTYPE_INT64,
    DTYPE_INT32,
    DTYPE_INT16,
    DTYPE_INT8,
    DTYPE_UINT64,
    DTYPE_UINT32,
    DTYPE_UINT16,
    DTYPE_UINT8,
    DTYPE_FLOAT64,
    DTYPE_FLOAT32,
    DTYPE_BOOL,
    DTYPE_TIME,
    DTYPE_DATE,
    DTYPE_ENUM,
    DTYPE_OID,
    DTYPE_OBJECT,
    DTYPE_F64PAIR,
    DTYPE_USER_FIXED,
    DTYPE_STR,
    DTYPE_USER_VLEN,
    DTYPE_LAST_VLEN,
    DTYPE_LAST,
}

impl DType {
    /// A sentinel marks absence of a type or the end of the registry; it is
    /// never the type of a live column.
    pub open spec fn is_sentinel_spec(self) -> bool {
        self == DType::DTYPE_NONE || self == DType::DTYPE_LAST_VLEN || self == DType::DTYPE_LAST
    }

    /// A data tag is any registry entry that a live column may carry.
    pub open spec fn is_data_spec(self) -> bool {
        !self.is_sentinel_spec()
    }

    /// True exactly on the three non-data markers of the registry.
    pub fn is_sentinel(&self) -> (r: bool)
        ensures
            r == self.is_sentinel_spec(),
    {
        match self {
            DType::DTYPE_NONE => true,
            DType::DTYPE_LAST_VLEN => true,
            DType::DTYPE_LAST => true,
            _ => false,
        }
    }

    /// The stable text label of this tag.
    pub open spec fn label_spec(self) -> Seq<char> {
        match self {
            DType::DTYPE_NONE => "DTYPE_NONE"@,
            DType::DTYPE_INT64 => "DTYPE_INT64"@,
            DType::DTYPE_INT32 => "DTYPE_INT32"@,
            DType::DTYPE_INT16 => "DTYPE_INT16"@,
            DType::DTYPE_INT8 => "DTYPE_INT8"@,
            DType::DTYPE_UINT64 => "DTYPE_UINT64"@,
            DType::DTYPE_UINT32 => "DTYPE_UINT32"@,
            DType::DTYPE_UINT16 => "DTYPE_UINT16"@,
            DType::DTYPE_UINT8 => "DTYPE_UINT8"@,
            DType::DTYPE_FLOAT64 => "DTYPE_FLOAT64"@,
            DType::DTYPE_FLOAT32 => "DTYPE_FLOAT32"@,
            DType::DTYPE_BOOL => "DTYPE_BOOL"@,
            DType::DTYPE_TIME => "DTYPE_TIME"@,
            DType::DTYPE_DATE => "DTYPE_DATE"@,
            DType::DTYPE_ENUM => "DTYPE_ENUM"@,
            DType::DTYPE_OID => "DTYPE_OID"@,
            DType::DTYPE_OBJECT => "DTYPE_OBJECT"@,
            DType::DTYPE_F64PAIR => "DTYPE_F64PAIR"@,
            DType::DTYPE_USER_FIXED => "DTYPE_USER_FIXED"@,
            DType::DTYPE_STR => "DTYPE_STR"@,
            DType::DTYPE_USER_VLEN => "DTYPE_USER_VLEN"@,
            DType::DTYPE_LAST_VLEN => "DTYPE_LAST_VLEN"@,
            DType::DTYPE_LAST => "DTYPE_LAST"@,
        }
    }

    /// Renders the tag under its stable text label.
    pub fn label(&self) -> (r: String)
        ensures
            r@ == self.label_spec(),
    {
        let s: &str = match self {
            DType::DTYPE_NONE => "DTYPE_NONE",
            DType::DTYPE_INT64 => "DTYPE_INT64",
            DType::DTYPE_INT32 => "DTYPE_INT32",
            DType::DTYPE_INT16 => "DTYPE_INT16",
            DType::DTYPE_INT8 => "DTYPE_INT8",
            DType::DTYPE_UINT64 => "DTYPE_UINT64",
            DType::DTYPE_UINT32 => "DTYPE_UINT32",
            DType::DTYPE_UINT16 => "DTYPE_UINT16",
            DType::DTYPE_UINT8 => "DTYPE_UINT8",
            DType::DTYPE_FLOAT64 => "DTYPE_FLOAT64",
            DType::DTYPE_FLOAT32 => "DTYPE_FLOAT32",
            DType::DTYPE_BOOL => "DTYPE_BOOL",
            DType::DTYPE_TIME => "DTYPE_TIME",
            DType::DTYPE_DATE => "DTYPE_DATE",
            DType::DTYPE_ENUM => "DTYPE_ENUM",
            DType::DTYPE_OID => "DTYPE_OID",
            DType::DTYPE_OBJECT => "DTYPE_OBJECT",
            DType::DTYPE_F64PAIR => "DTYPE_F64PAIR",
            DType::DTYPE_USER_FIXED => "DTYPE_USER_FIXED",
            DType::DTYPE_STR => "DTYPE_STR",
            DType::DTYPE_USER_VLEN => "DTYPE_USER_VLEN",
            DType::DTYPE_LAST_VLEN => "DTYPE_LAST_VLEN",
            DType::DTYPE_LAST => "DTYPE_LAST",
        };
        s.to_owned()
    }
}

} // verus!
