use qoredb::engine::types::{CancelSupport, Namespace};
use qoredb::engine::value::{QueryResult, RowData, Value};

fn text(v: Option<&Value>) -> Option<String> {
    match v {
        Some(Value::Text(s)) => Some(s.clone()),
        _ => None,
    }
}

#[test]
fn namespace_constructors() {
    let ns = Namespace::new("shop");
    assert_eq!(ns.database, "shop");
    assert_eq!(ns.schema, None);
    let ns = Namespace::with_schema("shop", "public");
    assert_eq!(ns.database, "shop");
    assert_eq!(ns.schema.as_deref(), Some("public"));
    assert_eq!(ns, Namespace::with_schema("shop", "public"));
    let copy = ns.duplicate();
    assert_eq!(copy, ns);
}

#[test]
fn row_data_keeps_columns_sorted_and_unique() {
    let row = RowData::new()
        .with_column("b", Value::Text("1".to_string()))
        .with_column("a", Value::Text("2".to_string()))
        .with_column("c", Value::Text("3".to_string()))
        .with_column("a", Value::Text("4".to_string()))
        .with_column("B", Value::Text("5".to_string()));
    assert_eq!(row.len(), 4);
    assert!(!row.is_empty());
    assert_eq!(row.column_names(), vec!["B", "a", "b", "c"]);
    assert_eq!(row.name_at(0), "B");
    assert_eq!(text(Some(row.value_at(1))), Some("4".to_string()));
    assert_eq!(text(row.get("a")), Some("4".to_string()));
    assert_eq!(text(row.get("b")), Some("1".to_string()));
    assert!(row.get("z").is_none());
    assert!(row.get("").is_none());
}

#[test]
fn row_data_orders_prefixes_and_non_ascii_names() {
    let row = RowData::new()
        .with_column("ab", Value::Null)
        .with_column("a", Value::Null)
        .with_column("", Value::Null)
        .with_column("é", Value::Null)
        .with_column("z", Value::Null)
        .with_column("abc", Value::Null);
    assert_eq!(row.column_names(), vec!["", "a", "ab", "abc", "z", "é"]);
    let mut sorted = row.column_names();
    sorted.sort();
    assert_eq!(sorted, row.column_names());
}

#[test]
fn empty_row_data() {
    let row = RowData::new();
    assert!(row.is_empty());
    assert_eq!(row.len(), 0);
    assert!(row.column_names().is_empty());
    assert!(RowData::default().is_empty());
}

#[test]
fn query_result_constructors() {
    let r = QueryResult::empty();
    assert!(r.columns.is_empty() && r.rows.is_empty());
    assert_eq!(r.affected_rows, None);
    assert_eq!(r.execution_time_us, 0);
    let r = QueryResult::with_affected_rows(3, 1250);
    assert!(r.columns.is_empty() && r.rows.is_empty());
    assert_eq!(r.affected_rows, Some(3));
    assert_eq!(r.execution_time_us, 1250);
}

#[test]
fn bytes_cross_the_boundary_as_base64() {
    assert_eq!(Value::bytes_to_text(&b"hello world~".to_vec()).as_deref(), Some("aGVsbG8gd29ybGR+"));
    assert_eq!(Value::bytes_to_text(&Vec::new()).as_deref(), Some(""));
    assert_eq!(Value::bytes_to_text(&vec![0u8]).as_deref(), Some("AA=="));
    assert_eq!(Value::bytes_to_text(&vec![0xff, 0xfe]).as_deref(), Some("//4="));
    match Value::bytes_from_text("aGVsbG8gd29ybGR+") {
        Ok(Value::Bytes(b)) => assert_eq!(b, b"hello world~".to_vec()),
        other => panic!("unexpected: {other:?}"),
    }
    assert!(Value::bytes_from_text("not base64!").is_err());
    assert!(Value::bytes_from_text("AA").is_err());
    assert_eq!(Value::Bytes(vec![1, 2, 3]).external_bytes().as_deref(), Some("AQID"));
    assert_eq!(Value::Text("AQID".to_string()).external_bytes(), None);
    assert_eq!(Value::Null.external_bytes(), None);
}

#[test]
fn cancel_support_levels_are_distinct() {
    assert_ne!(CancelSupport::Unsupported, CancelSupport::BestEffort);
    assert_ne!(CancelSupport::BestEffort, CancelSupport::Driver);
}
