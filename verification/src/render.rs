//! Diagnostic rendering of a table.
//!
//! The output is one header line of `name:TAG` fields separated by `|`,
//! then one line per rendered row with the cells separated by `|`. It is a
//! human-facing diagnostic, not a stable machine-readable format; its exact
//! text is nevertheless pinned down here so that rendering is verified.

use vstd::prelude::*;
use vstd::string::StringExecFns;
use crate::column::ColumnView;
use crate::dtype::DType;
use crate::scalar::{Scalar, ScalarVal};
use crate::table::TableView;

verus! {

/// The decimal digit `d` (at most nine) as text.
pub open spec fn digit_spec(d: nat) -> Seq<char> {
    if d == 0 {
        "0"@
    } else if d == 1 {
        "1"@
    } else if d == 2 {
        "2"@
    } else if d == 3 {
        "3"@
    } else if d == 4 {
        "4"@
    } else if d == 5 {
        "5"@
    } else if d == 6 {
        "6"@
    } else if d == 7 {
        "7"@
    } else if d == 8 {
        "8"@
    } else {
        "9"@
    }
}

/// `n` in decimal, most significant digit first, no leading zero.
pub open spec fn dec_spec(n: nat) -> Seq<char>
    decreases n,
{
    if n < 10 {
        digit_spec(n)
    } else {
        dec_spec(n / 10) + digit_spec(n % 10)
    }
}

/// A signed value in decimal, with a leading minus sign when negative.
pub open spec fn int_spec(v: int) -> Seq<char> {
    if v >= 0 {
        dec_spec(v as nat)
    } else {
        "-"@ + dec_spec((-v) as nat)
    }
}

/// One scalar as diagnostic text. Numeric payloads render in decimal,
/// floating payloads as their raw bit patterns, byte payloads by length.
pub open spec fn scalar_spec(s: ScalarVal) -> Seq<char> {
    match s {
        ScalarVal::Absent => "null"@,
        ScalarVal::I64(x) => int_spec(x as int),
        ScalarVal::I32(x) => int_spec(x as int),
        ScalarVal::I16(x) => int_spec(x as int),
        ScalarVal::I8(x) => int_spec(x as int),
        ScalarVal::U64(x) => dec_spec(x as nat),
        ScalarVal::U32(x) => dec_spec(x as nat),
        ScalarVal::U16(x) => dec_spec(x as nat),
        ScalarVal::U8(x) => dec_spec(x as nat),
        ScalarVal::F64Bits(x) => "f64:"@ + dec_spec(x as nat),
        ScalarVal::F32Bits(x) => "f32:"@ + dec_spec(x as nat),
        ScalarVal::Bool(b) => if b {
            "true"@
        } else {
            "false"@
        },
        ScalarVal::Time(x) => int_spec(x as int),
        ScalarVal::Date(x) => int_spec(x as int),
        ScalarVal::Enum(x) => dec_spec(x as nat),
        ScalarVal::Oid(x) => dec_spec(x as nat),
        ScalarVal::Object(x) => "obj:"@ + dec_spec(x as nat),
        ScalarVal::F64Pair(a, b) => "f64:"@ + dec_spec(a as nat) + ","@ + dec_spec(b as nat),
        ScalarVal::UserFixed(v) => "fixed["@ + dec_spec(v.len()) + "]"@,
        ScalarVal::Str(t) => t,
        ScalarVal::UserVlen(v) => "vlen["@ + dec_spec(v.len()) + "]"@,
    }
}

/// The first `i` header fields, `name:TAG`, separated by `|`.
pub open spec fn header_prefix(names: Seq<Seq<char>>, types: Seq<DType>, i: int) -> Seq<char>
    decreases i,
{
    if i <= 0 {
        Seq::empty()
    } else {
        header_prefix(names, types, i - 1) + (if i - 1 > 0 {
            "|"@
        } else {
            Seq::<char>::empty()
        }) + names[i - 1] + ":"@ + types[i - 1].label_spec()
    }
}

/// The first `i` cells of row `r`, separated by `|`.
pub open spec fn row_prefix(table: Seq<ColumnView>, r: int, i: int) -> Seq<char>
    decreases i,
{
    if i <= 0 {
        Seq::empty()
    } else {
        row_prefix(table, r, i - 1) + (if i - 1 > 0 {
            "|"@
        } else {
            Seq::<char>::empty()
        }) + scalar_spec(table[i - 1].cells[r])
    }
}

/// The first `j` rows, each rendered and newline-terminated.
pub open spec fn rows_prefix(table: Seq<ColumnView>, j: int) -> Seq<char>
    decreases j,
{
    if j <= 0 {
        Seq::empty()
    } else {
        rows_prefix(table, j - 1) + row_prefix(table, j - 1, table.len() as int) + "\n"@
    }
}

/// The full diagnostic text: the header line, then up to `num_rows` rows.
pub open spec fn render_spec(v: TableView, num_rows: int) -> Seq<char> {
    header_prefix(v.schema.names, v.schema.types, v.schema.names.len() as int) + "\n"@
        + rows_prefix(
        v.node.table,
        if num_rows < v.node.rows() {
            num_rows
        } else {
            v.node.rows()
        },
    )
}

/// The decimal digit `d` as text.
fn digit_str(d: u64) -> (r: &'static str)
    requires
        d < 10,
    ensures
        r@ == digit_spec(d as nat),
{
    match d {
        0 => "0",
        1 => "1",
        2 => "2",
        3 => "3",
        4 => "4",
        5 => "5",
        6 => "6",
        7 => "7",
        8 => "8",
        _ => "9",
    }
}

/// Renders `n` in decimal.
pub(crate) fn dec_u64(n: u64) -> (r: String)
    ensures
        r@ == dec_spec(n as nat),
    decreases n,
{
    if n < 10 {
        digit_str(n).to_owned()
    } else {
        let mut s = dec_u64(n / 10);
        s.append(digit_str(n % 10));
        s
    }
}

/// Renders a signed value in decimal.
pub(crate) fn dec_i64(x: i64) -> (r: String)
    ensures
        r@ == int_spec(x as int),
{
    if x >= 0 {
        dec_u64(x as u64)
    } else {
        let wide: i128 = x as i128;
        let mag: u64 = (-wide) as u64;
        proof {
            assert(mag as nat == (-(x as int)) as nat);
        }
        let mut s = "-".to_owned();
        s.append(dec_u64(mag).as_str());
        s
    }
}

/// Renders one scalar as diagnostic text.
pub(crate) fn render_scalar(s: &Scalar) -> (r: String)
    ensures
        r@ == scalar_spec(s@),
{
    match s {
        Scalar::Absent => "null".to_owned(),
        Scalar::I64(x) => dec_i64(*x),
        Scalar::I32(x) => dec_i64(*x as i64),
        Scalar::I16(x) => dec_i64(*x as i64),
        Scalar::I8(x) => dec_i64(*x as i64),
        Scalar::U64(x) => dec_u64(*x),
        Scalar::U32(x) => dec_u64(*x as u64),
        Scalar::U16(x) => dec_u64(*x as u64),
        Scalar::U8(x) => dec_u64(*x as u64),
        Scalar::F64Bits(x) => {
            let mut r = "f64:".to_owned();
            r.append(dec_u64(*x).as_str());
            r
        },
        Scalar::F32Bits(x) => {
            let mut r = "f32:".to_owned();
            r.append(dec_u64(*x as u64).as_str());
            r
        },
        Scalar::Bool(b) => if *b {
            "true".to_owned()
        } else {
            "false".to_owned()
        },
        Scalar::Time(x) => dec_i64(*x),
        Scalar::Date(x) => dec_i64(*x as i64),
        Scalar::Enum(x) => dec_u64(*x as u64),
        Scalar::Oid(x) => dec_u64(*x),
        Scalar::Object(x) => {
            let mut r = "obj:".to_owned();
            r.append(dec_u64(*x).as_str());
            r
        },
        Scalar::F64Pair(a, b) => {
            let mut r = "f64:".to_owned();
            r.append(dec_u64(*a).as_str());
            r.append(",");
            r.append(dec_u64(*b).as_str());
            r
        },
        Scalar::UserFixed(v) => {
            let mut r = "fixed[".to_owned();
            r.append(dec_u64(v.len() as u64).as_str());
            r.append("]");
            r
        },
        Scalar::Str(t) => t.clone(),
        Scalar::UserVlen(v) => {
            let mut r = "vlen[".to_owned();
            r.append(dec_u64(v.len() as u64).as_str());
            r.append("]");
            r
        },
    }
}

} // verus!
