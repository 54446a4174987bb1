use perspective_ffi::dtype::DType;
use perspective_ffi::error::BridgeError;
use perspective_ffi::scalar::Scalar;
use perspective_ffi::table::Table;

fn names(v: &[&str]) -> Vec<String> {
    v.iter().map(|s| s.to_string()).collect()
}

#[test]
fn pretty_print_header_only_when_empty() {
    let t = Table::new(
        names(&["a"]),
        vec![DType::DTYPE_INT64],
        100,
        "a".to_string(),
    )
    .unwrap();
    assert_eq!(t.pretty_print(10), "a:DTYPE_INT64\n".to_string());
}

#[test]
fn pretty_print_rows_and_separators() {
    let mut t = Table::new(
        names(&["a", "flag"]),
        vec![DType::DTYPE_INT64, DType::DTYPE_BOOL],
        100,
        "a".to_string(),
    )
    .unwrap();
    let p = t.make_port();
    t.write_port(p, vec![Scalar::I64(5), Scalar::Bool(true)]).unwrap();
    t.write_port(p, vec![Scalar::I64(-30), Scalar::Bool(false)]).unwrap();
    t.process();
    assert_eq!(
        t.pretty_print(10),
        "a:DTYPE_INT64|flag:DTYPE_BOOL\n5|true\n-30|false\n".to_string()
    );
    assert_eq!(
        t.pretty_print(1),
        "a:DTYPE_INT64|flag:DTYPE_BOOL\n5|true\n".to_string()
    );
    assert_eq!(t.pretty_print(0), "a:DTYPE_INT64|flag:DTYPE_BOOL\n".to_string());
}

#[test]
fn pretty_print_string_and_wide_values() {
    let mut t = Table::new(
        names(&["k", "s", "u"]),
        vec![DType::DTYPE_INT64, DType::DTYPE_STR, DType::DTYPE_UINT64],
        100,
        "k".to_string(),
    )
    .unwrap();
    let p = t.make_port();
    t.write_port(
        p,
        vec![
            Scalar::I64(0),
            Scalar::Str("hello".to_string()),
            Scalar::U64(18446744073709551615),
        ],
    )
    .unwrap();
    t.process();
    assert_eq!(
        t.pretty_print(5),
        "k:DTYPE_INT64|s:DTYPE_STR|u:DTYPE_UINT64\n0|hello|18446744073709551615\n".to_string()
    );
}

#[test]
fn dtype_labels_and_sentinels() {
    assert_eq!(DType::DTYPE_INT64.label(), "DTYPE_INT64".to_string());
    assert_eq!(DType::DTYPE_LAST.label(), "DTYPE_LAST".to_string());
    assert!(DType::DTYPE_NONE.is_sentinel());
    assert!(DType::DTYPE_LAST_VLEN.is_sentinel());
    assert!(DType::DTYPE_LAST.is_sentinel());
    assert!(!DType::DTYPE_INT64.is_sentinel());
    assert!(!DType::DTYPE_STR.is_sentinel());
}

#[test]
fn scalar_tags_match_variants() {
    assert_eq!(Scalar::Absent.tag(), DType::DTYPE_NONE);
    assert_eq!(Scalar::I64(1).tag(), DType::DTYPE_INT64);
    assert_eq!(Scalar::U32(1).tag(), DType::DTYPE_UINT32);
    assert_eq!(Scalar::Bool(false).tag(), DType::DTYPE_BOOL);
    assert_eq!(Scalar::Str("x".to_string()).tag(), DType::DTYPE_STR);
    assert_eq!(Scalar::F64Bits(0).tag(), DType::DTYPE_FLOAT64);
    assert_eq!(Scalar::Time(9).tag(), DType::DTYPE_TIME);
    assert_eq!(Scalar::Date(9).tag(), DType::DTYPE_DATE);
}

#[test]
fn error_labels() {
    assert_eq!(BridgeError::NotFound.label(), "not found".to_string());
    assert_eq!(BridgeError::OutOfBounds.label(), "out of bounds".to_string());
    assert_eq!(
        BridgeError::NotImplemented.label(),
        "not implemented".to_string()
    );
}

#[test]
fn pretty_print_exotic_scalars() {
    let mut t = Table::new(
        names(&["t", "d", "f", "v", "o", "p"]),
        vec![
            DType::DTYPE_TIME,
            DType::DTYPE_DATE,
            DType::DTYPE_FLOAT64,
            DType::DTYPE_USER_VLEN,
            DType::DTYPE_OBJECT,
            DType::DTYPE_F64PAIR,
        ],
        8,
        "t".to_string(),
    )
    .unwrap();
    let p = t.make_port();
    t.write_port(
        p,
        vec![
            Scalar::Time(-5),
            Scalar::Date(20000),
            Scalar::F64Bits(3),
            Scalar::UserVlen(vec![1, 2, 3]),
            Scalar::Object(9),
            Scalar::F64Pair(1, 2),
        ],
    )
    .unwrap();
    t.process();
    assert_eq!(
        t.pretty_print(4),
        "t:DTYPE_TIME|d:DTYPE_DATE|f:DTYPE_FLOAT64|v:DTYPE_USER_VLEN|o:DTYPE_OBJECT|p:DTYPE_F64PAIR\n\
         -5|20000|f64:3|vlen[3]|obj:9|f64:1,2\n"
            .to_string()
    );
    let c = t.get_column("v").unwrap();
    assert_eq!(c.read(0).unwrap(), Scalar::UserVlen(vec![1, 2, 3]));
}
