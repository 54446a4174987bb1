use perspective_ffi::column::Column;
use perspective_ffi::dtype::DType;
use perspective_ffi::error::BridgeError;
use perspective_ffi::pool::Pool;
use perspective_ffi::scalar::Scalar;
use perspective_ffi::table::Table;

fn names(v: &[&str]) -> Vec<String> {
    v.iter().map(|s| s.to_string()).collect()
}

fn small_table() -> Table {
    Table::new(
        names(&["a", "b"]),
        vec![DType::DTYPE_INT64, DType::DTYPE_BOOL],
        10,
        "a".to_string(),
    )
    .unwrap()
}

#[test]
fn new_valid_schema_round_trip() {
    let t = Table::new(
        names(&["a", "b", "c"]),
        vec![DType::DTYPE_INT64, DType::DTYPE_STR, DType::DTYPE_UINT32],
        100,
        "b".to_string(),
    )
    .unwrap();
    let s = t.schema();
    assert_eq!(s.columns(), names(&["a", "b", "c"]));
    assert_eq!(
        s.types(),
        vec![DType::DTYPE_INT64, DType::DTYPE_STR, DType::DTYPE_UINT32]
    );
    assert_eq!(t.columns(), names(&["a", "b", "c"]));
}

#[test]
fn new_mismatched_lengths_fails() {
    let r = Table::new(
        names(&["a", "b"]),
        vec![DType::DTYPE_INT64],
        100,
        "a".to_string(),
    );
    assert_eq!(r.err(), Some(BridgeError::MismatchedLengths));
}

#[test]
fn new_duplicate_name_fails() {
    let r = Table::new(
        names(&["a", "a"]),
        vec![DType::DTYPE_INT64, DType::DTYPE_INT64],
        100,
        "a".to_string(),
    );
    assert_eq!(r.err(), Some(BridgeError::DuplicateName));
}

#[test]
fn new_unknown_index_fails() {
    let r = Table::new(
        names(&["a"]),
        vec![DType::DTYPE_INT64],
        100,
        "b".to_string(),
    );
    assert_eq!(r.err(), Some(BridgeError::UnknownIndexColumn));
}

#[test]
fn get_column_missing_is_not_found() {
    let t = small_table();
    let r = t.get_column("zzz");
    assert_eq!(r.err(), Some(BridgeError::NotFound));
    assert_eq!(t.get_col_dtype("zzz".to_string()).err(), Some(BridgeError::NotFound));
}

#[test]
fn empty_table_scenario() {
    let mut t = Table::new(
        names(&["a"]),
        vec![DType::DTYPE_INT64],
        100,
        "a".to_string(),
    )
    .unwrap();
    t.process();
    assert_eq!(t.size(), 0);
    let c = t.get_column("a").unwrap();
    assert_eq!(c.size(), 0);
}

#[test]
fn dtype_round_trip() {
    let t = small_table();
    assert_eq!(t.get_column("a").unwrap().get_dtype(), DType::DTYPE_INT64);
    assert_eq!(t.get_column("b").unwrap().get_dtype(), DType::DTYPE_BOOL);
    assert_eq!(
        t.get_col_dtype("a".to_string()).unwrap(),
        "DTYPE_INT64".to_string()
    );
    assert_eq!(
        t.get_column("b").unwrap().get_dtype_string(),
        "DTYPE_BOOL".to_string()
    );
}

fn filled_table() -> Table {
    let mut t = small_table();
    let port = t.make_port();
    assert_eq!(port, 0);
    t.write_port(port, vec![Scalar::I64(5), Scalar::Bool(true)]).unwrap();
    t.write_port(port, vec![Scalar::I64(-3), Scalar::Bool(false)]).unwrap();
    t.process();
    t
}

#[test]
fn write_then_process_materializes_rows() {
    let t = filled_table();
    assert_eq!(t.size(), 2);
    assert_eq!(t.pending_rows(), 0);
    let a = t.get_column("a").unwrap();
    assert_eq!(a.get_i64(0), Ok(5));
    assert_eq!(a.get_i64(1), Ok(-3));
    let b = t.get_column("b").unwrap();
    assert_eq!(b.read(0).unwrap(), Scalar::Bool(true));
    assert_eq!(b.read(1).unwrap(), Scalar::Bool(false));
}

#[test]
fn process_is_idempotent_without_new_input() {
    let mut t = filled_table();
    let size_before = t.size();
    let a_before: Vec<Scalar> = column_cells(&t.get_column("a").unwrap());
    let b_before: Vec<Scalar> = column_cells(&t.get_column("b").unwrap());
    let steps_before = t.steps_taken();
    t.process();
    assert_eq!(t.size(), size_before);
    assert_eq!(column_cells(&t.get_column("a").unwrap()), a_before);
    assert_eq!(column_cells(&t.get_column("b").unwrap()), b_before);
    assert!(t.steps_taken() >= steps_before);
}

fn column_cells(c: &Column) -> Vec<Scalar> {
    let mut out = Vec::new();
    let mut i = 0;
    while i < c.size() {
        out.push(c.read(i).unwrap());
        i += 1;
    }
    out
}

#[test]
fn reads_at_size_are_out_of_bounds() {
    let t = filled_table();
    let a = t.get_column("a").unwrap();
    assert_eq!(a.get_i64(a.size()), Err(BridgeError::OutOfBounds));
    assert_eq!(a.read(a.size()).err(), Some(BridgeError::OutOfBounds));
    let empty = small_table();
    let c = empty.get_column("a").unwrap();
    assert_eq!(c.get_i64(0), Err(BridgeError::OutOfBounds));
    assert_eq!(c.read(0).err(), Some(BridgeError::OutOfBounds));
}

#[test]
fn unsigned_boundary_reads() {
    let mut t = Table::new(
        names(&["k"]),
        vec![DType::DTYPE_UINT32],
        4,
        "k".to_string(),
    )
    .unwrap();
    let p = t.make_port();
    t.write_port(p, vec![Scalar::U32(7)]).unwrap();
    t.process();
    let c = t.get_column("k").unwrap();
    assert_eq!(c.get_u32(0), Ok(7));
    assert_eq!(c.get_u32(1), Err(BridgeError::OutOfBounds));
    assert_eq!(c.get_u32(usize::MAX), Err(BridgeError::OutOfBounds));
}

#[test]
fn ports_are_monotone_and_checked() {
    let mut t = small_table();
    assert_eq!(t.make_port(), 0);
    assert_eq!(t.make_port(), 1);
    assert_eq!(t.make_port(), 2);
    let r = t.write_port(3, vec![Scalar::I64(1), Scalar::Bool(true)]);
    assert_eq!(r, Err(BridgeError::NotFound));
}

#[test]
fn write_port_validates_shape_and_tags() {
    let mut t = small_table();
    let p = t.make_port();
    assert_eq!(
        t.write_port(p, vec![Scalar::I64(1)]),
        Err(BridgeError::MismatchedLengths)
    );
    assert_eq!(
        t.write_port(p, vec![Scalar::Bool(true), Scalar::Bool(true)]),
        Err(BridgeError::MismatchedType)
    );
    assert_eq!(t.size(), 0);
    assert_eq!(t.pending_rows(), 0);
}

#[test]
fn write_port_respects_limit() {
    let mut t = Table::new(
        names(&["a"]),
        vec![DType::DTYPE_INT64],
        1,
        "a".to_string(),
    )
    .unwrap();
    let p = t.make_port();
    t.write_port(p, vec![Scalar::I64(1)]).unwrap();
    assert_eq!(
        t.write_port(p, vec![Scalar::I64(2)]),
        Err(BridgeError::LimitExceeded)
    );
    t.process();
    assert_eq!(t.size(), 1);
    assert_eq!(
        t.write_port(p, vec![Scalar::I64(3)]),
        Err(BridgeError::LimitExceeded)
    );
}

#[test]
fn processing_counter_advances() {
    let mut t = small_table();
    assert_eq!(t.steps_taken(), 0);
    t.process();
    assert_eq!(t.steps_taken(), 1);
    t.process();
    assert_eq!(t.steps_taken(), 2);
}

#[test]
fn column_snapshot_outlives_later_processing() {
    let mut t = small_table();
    let p = t.make_port();
    t.write_port(p, vec![Scalar::I64(1), Scalar::Bool(true)]).unwrap();
    t.process();
    let snap = t.get_column("a").unwrap();
    t.write_port(p, vec![Scalar::I64(2), Scalar::Bool(false)]).unwrap();
    t.process();
    assert_eq!(snap.size(), 1);
    assert_eq!(t.get_column("a").unwrap().size(), 2);
    let dup = snap.duplicate();
    assert_eq!(dup.size(), snap.size());
    assert_eq!(dup.get_dtype(), snap.get_dtype());
    assert_eq!(dup.read(0).unwrap(), snap.read(0).unwrap());
}

#[test]
fn ingestion_adapters_are_unimplemented() {
    assert_eq!(
        Table::from_csv("a\n1".to_string()).err(),
        Some(BridgeError::NotImplemented)
    );
    assert_eq!(
        Table::from_arrow(vec![1, 2, 3]).err(),
        Some(BridgeError::NotImplemented)
    );
    assert_eq!(
        Table::from_json("{}".to_string()).err(),
        Some(BridgeError::NotImplemented)
    );
}

#[test]
fn pool_is_created_live() {
    let _pool = Pool::new();
}
