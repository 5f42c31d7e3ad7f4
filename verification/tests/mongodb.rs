use qoredb::engine::drivers::mongodb::{
    acknowledge_cancel, build_collection_schema, build_connection_string, document_columns,
    find_is_full,
    infer_columns,
    invalid_filter, parse_query, summarize_fields, transaction_not_supported, visible_namespaces,
    BsonKind, FieldSample, MongoPlan, FIND_LIMIT, SAMPLE_LIMIT,
};
use qoredb::engine::error::EngineError;
use qoredb::engine::types::ConnectionConfig;

fn field(name: &str, kind: BsonKind) -> FieldSample {
    FieldSample { name: name.to_string(), kind }
}

#[test]
fn mongo_connection_string_is_exact() {
    let mut c = ConnectionConfig {
        driver: "mongodb".to_string(),
        host: "localhost".to_string(),
        port: 27017,
        username: "root".to_string(),
        password: "pw".to_string(),
        database: None,
        ssl: false,
        environment: "development".to_string(),
        read_only: false,
        ssh_tunnel: None,
    };
    assert_eq!(
        build_connection_string(&c),
        "mongodb://root:pw@localhost:27017/admin?authSource=admin&tls=false"
    );
    c.database = Some("shop".to_string());
    c.ssl = true;
    assert_eq!(
        build_connection_string(&c),
        "mongodb://root:pw@localhost:27017/shop?authSource=admin&tls=true"
    );
}

#[test]
fn system_databases_are_not_listed() {
    let names: Vec<String> =
        ["admin", "shop", "config", "local", "Admin", "logs"].iter().map(|s| s.to_string()).collect();
    let out = visible_namespaces(&names);
    assert_eq!(out.iter().map(|n| n.database.as_str()).collect::<Vec<_>>(), vec!["shop", "Admin", "logs"]);
    assert!(out.iter().all(|n| n.schema.is_none()));
    assert!(visible_namespaces(&Vec::new()).is_empty());
}

#[test]
fn dotted_shorthand_is_a_find() {
    match parse_query("  shop.orders ").unwrap() {
        MongoPlan::Find { database, collection, filter } => {
            assert_eq!(database, "shop");
            assert_eq!(collection, "orders");
            assert_eq!(filter, None);
        }
        other => panic!("unexpected: {other:?}"),
    }
    match parse_query("db.users.find({})").unwrap() {
        MongoPlan::Find { database, collection, .. } => {
            assert_eq!(database, "db");
            assert_eq!(collection, "users");
        }
        other => panic!("unexpected: {other:?}"),
    }
    match parse_query(".").unwrap() {
        MongoPlan::Find { database, collection, .. } => {
            assert_eq!(database, "");
            assert_eq!(collection, "");
        }
        other => panic!("unexpected: {other:?}"),
    }
}

#[test]
fn request_in_neither_form_is_a_syntax_error() {
    for q in ["orders", "", "   "] {
        match parse_query(q) {
            Err(EngineError::SyntaxError { message }) => {
                assert!(message.starts_with("Invalid query format. Use JSON: "), "{}", message)
            }
            other => panic!("unexpected: {other:?}"),
        }
    }
}

#[test]
fn json_request_defaults_to_find() {
    let q = " {\"database\": \"shop\", \"collection\": \"orders\", \"query\": {\"a\": 1}} ";
    match parse_query(q).unwrap() {
        MongoPlan::Find { database, collection, filter } => {
            assert_eq!(database, "shop");
            assert_eq!(collection, "orders");
            assert_eq!(filter.as_deref(), Some("{\"a\":1}"));
        }
        other => panic!("unexpected: {other:?}"),
    }
    let q = "{\"database\": \"shop\", \"collection\": \"orders\", \"operation\": \"find\"}";
    match parse_query(q).unwrap() {
        MongoPlan::Find { filter, .. } => assert_eq!(filter, None),
        other => panic!("unexpected: {other:?}"),
    }
}

#[test]
fn json_request_operations() {
    let q = "{\"database\": \"shop\", \"collection\": \"c\", \"operation\": \"create_collection\"}";
    match parse_query(q).unwrap() {
        MongoPlan::CreateCollection { database, collection } => {
            assert_eq!((database.as_str(), collection.as_str()), ("shop", "c"))
        }
        other => panic!("unexpected: {other:?}"),
    }
    let q = "{\"database\": \"shop\", \"collection\": \"c\", \"operation\": \"drop_collection\"}";
    match parse_query(q).unwrap() {
        MongoPlan::DropCollection { database, collection } => {
            assert_eq!((database.as_str(), collection.as_str()), ("shop", "c"))
        }
        other => panic!("unexpected: {other:?}"),
    }
    let q = "{\"database\": \"shop\", \"operation\": \"drop_database\"}";
    match parse_query(q).unwrap() {
        MongoPlan::DropDatabase { database } => assert_eq!(database, "shop"),
        other => panic!("unexpected: {other:?}"),
    }
}

#[test]
fn json_request_errors() {
    match parse_query("{not json") {
        Err(EngineError::SyntaxError { message }) => {
            assert!(message.starts_with("Invalid JSON: "), "{}", message)
        }
        other => panic!("unexpected: {other:?}"),
    }
    match parse_query("{\"collection\": \"c\"}") {
        Err(EngineError::SyntaxError { message }) => assert_eq!(message, "Missing 'database' field"),
        other => panic!("unexpected: {other:?}"),
    }
    match parse_query("{\"database\": 5, \"collection\": \"c\"}") {
        Err(EngineError::SyntaxError { message }) => assert_eq!(message, "Missing 'database' field"),
        other => panic!("unexpected: {other:?}"),
    }
    match parse_query("{\"database\": \"d\"}") {
        Err(EngineError::SyntaxError { message }) => {
            assert_eq!(message, "Missing 'collection' field")
        }
        other => panic!("unexpected: {other:?}"),
    }
    match parse_query("{\"database\": \"d\", \"operation\": \"create_collection\"}") {
        Err(EngineError::SyntaxError { message }) => {
            assert_eq!(message, "Missing 'collection' field")
        }
        other => panic!("unexpected: {other:?}"),
    }
    match invalid_filter("bad") {
        EngineError::SyntaxError { message } => assert_eq!(message, "Invalid query: bad"),
        other => panic!("unexpected: {other:?}"),
    }
}

#[test]
fn limits_of_find_and_sampling() {
    assert_eq!(FIND_LIMIT, 1000);
    assert_eq!(SAMPLE_LIMIT, 100);
    assert!(!find_is_full(0));
    assert!(!find_is_full(999));
    assert!(find_is_full(1000));
    assert!(find_is_full(1001));
}

#[test]
fn transactions_and_cancel_of_the_document_store() {
    match transaction_not_supported() {
        EngineError::NotSupported { message } => assert_eq!(
            message,
            "MongoDB transactions require a replica set. Standalone instances do not support transactions."
        ),
        other => panic!("unexpected: {other:?}"),
    }
    assert!(acknowledge_cancel(true, "s").is_ok());
    match acknowledge_cancel(false, "s-1") {
        Err(EngineError::SessionNotFound { session_id }) => assert_eq!(session_id, "s-1"),
        other => panic!("unexpected: {other:?}"),
    }
}

#[test]
fn kinds_have_names() {
    let expect = [
        (BsonKind::Null, "null"),
        (BsonKind::Boolean, "boolean"),
        (BsonKind::Int32, "int32"),
        (BsonKind::Int64, "int64"),
        (BsonKind::Double, "double"),
        (BsonKind::Text, "string"),
        (BsonKind::ObjectId, "ObjectId"),
        (BsonKind::DateTime, "datetime"),
        (BsonKind::Array, "array"),
        (BsonKind::Document, "document"),
        (BsonKind::Binary, "binary"),
        (BsonKind::Other, "mixed"),
    ];
    for (kind, name) in expect {
        assert_eq!(kind.kind_name(), name);
    }
}

#[test]
fn schema_is_inferred_from_first_sighting() {
    let docs = vec![
        vec![field("name", BsonKind::Text), field("_id", BsonKind::ObjectId), field("age", BsonKind::Int32)],
        vec![field("_id", BsonKind::Text), field("age", BsonKind::Double), field("tags", BsonKind::Array)],
        vec![],
        vec![field("Zip", BsonKind::Null)],
    ];
    let summary = summarize_fields(&docs);
    assert_eq!(
        summary.iter().map(|f| (f.name.as_str(), f.kind)).collect::<Vec<_>>(),
        vec![
            ("Zip", BsonKind::Null),
            ("_id", BsonKind::ObjectId),
            ("age", BsonKind::Int32),
            ("name", BsonKind::Text),
            ("tags", BsonKind::Array),
        ]
    );
    let columns = infer_columns(&docs);
    assert_eq!(
        columns.iter().map(|c| (c.name.as_str(), c.data_type.as_str(), c.is_primary_key)).collect::<Vec<_>>(),
        vec![
            ("_id", "ObjectId", true),
            ("Zip", "null", false),
            ("age", "int32", false),
            ("name", "string", false),
            ("tags", "array", false),
        ]
    );
    assert!(columns.iter().all(|c| c.nullable && c.default_value.is_none()));
}

#[test]
fn schema_without_id_is_sorted_by_name() {
    let docs = vec![vec![field("b", BsonKind::Int64), field("a", BsonKind::Boolean)]];
    let schema = build_collection_schema(&docs, Some(42));
    assert_eq!(schema.columns.iter().map(|c| c.name.as_str()).collect::<Vec<_>>(), vec!["a", "b"]);
    assert_eq!(schema.primary_key, Some(vec!["_id".to_string()]));
    assert_eq!(schema.row_count_estimate, Some(42));
    let schema = build_collection_schema(&Vec::new(), None);
    assert!(schema.columns.is_empty());
    assert_eq!(schema.primary_key, Some(vec!["_id".to_string()]));
    assert_eq!(schema.row_count_estimate, None);
}

#[test]
fn document_columns_are_of_mixed_type() {
    let columns = document_columns(&vec!["_id".to_string(), "name".to_string()]);
    assert_eq!(columns.iter().map(|c| c.name.as_str()).collect::<Vec<_>>(), vec!["_id", "name"]);
    assert!(columns.iter().all(|c| c.data_type == "mixed" && c.nullable));
    assert!(document_columns(&Vec::new()).is_empty());
}
