use object_storage::key::Key;
use object_storage::path::{
    has_separator, has_trailing_separator, is_reserved_name, is_sanitized, join_path,
    resolve_row_path, resolve_schema_path, resolve_table_path, root_directory,
};

#[test]
fn table_path_is_prefix_and_name() {
    assert_eq!(resolve_table_path("/warehouse", "orders"), "/warehouse/orders");
    assert_eq!(resolve_table_path("/warehouse/", "orders"), "/warehouse/orders");
    assert_eq!(resolve_table_path("", "orders"), "orders");
    assert_eq!(resolve_table_path("/", "orders"), "/orders");
}

#[test]
fn table_name_is_taken_as_it_is() {
    assert_eq!(resolve_table_path("/warehouse", "a/b"), "/warehouse/a/b");
    assert_eq!(resolve_table_path("/warehouse", "/orders"), "/warehouse//orders");
    assert_eq!(resolve_table_path("/warehouse", ""), "/warehouse/");
    assert_eq!(resolve_table_path("données", "été"), "données/été");
}

#[test]
fn row_path_of_the_warehouse_orders() {
    assert_eq!(
        resolve_row_path("/warehouse", "orders", &[0x00, 0x01]),
        "/warehouse/orders/0001.ron"
    );
}

#[test]
fn row_path_of_the_empty_key() {
    assert_eq!(resolve_row_path("/warehouse", "orders", &[]), "/warehouse/orders/.ron");
}

#[test]
fn row_path_is_the_same_on_every_call() {
    let first = resolve_row_path("/warehouse", "orders", &[0x12, 0xab]);
    let second = resolve_row_path("/warehouse", "orders", &[0x12, 0xab]);
    assert_eq!(first, second);
    assert_eq!(first, "/warehouse/orders/12ab.ron");
}

#[test]
fn row_paths_are_ordered_as_their_keys() {
    let keys: Vec<Vec<u8>> = vec![
        vec![],
        vec![0x00],
        vec![0x00, 0x00],
        vec![0x00, 0x01],
        vec![0x01],
        vec![0x0a],
        vec![0x10],
        vec![0x10, 0x00],
        vec![0xfe, 0xff],
        vec![0xff],
    ];
    for a in &keys {
        for b in &keys {
            let x = resolve_row_path("/warehouse", "orders", a);
            let y = resolve_row_path("/warehouse", "orders", b);
            assert_eq!(a < b, x < y, "{:?} {:?}", a, b);
        }
    }
}

#[test]
fn schema_path_is_the_reserved_name_under_the_table() {
    assert_eq!(resolve_schema_path("/warehouse", "orders"), "/warehouse/orders/schema.sql");
    assert_eq!(resolve_schema_path("", "orders"), "orders/schema.sql");
}

#[test]
fn schema_path_is_no_row_path() {
    let schema = resolve_schema_path("/warehouse", "orders");
    for key in [vec![], vec![0x00], vec![0x5c, 0x4e, 0xa0]] {
        assert_ne!(schema, resolve_row_path("/warehouse", "orders", &key));
    }
}

#[test]
fn reserved_name_is_recognised() {
    assert!(is_reserved_name("schema.sql"));
    assert!(!is_reserved_name("schema"));
    assert!(!is_reserved_name("Schema.sql"));
    assert!(!is_reserved_name("orders"));
    assert!(!is_reserved_name(""));
}

#[test]
fn root_directory_ends_with_one_separator() {
    assert_eq!(root_directory("/warehouse"), "/warehouse/");
    assert_eq!(root_directory("/warehouse/"), "/warehouse/");
    assert_eq!(root_directory(""), "/");
    assert_eq!(root_directory("/"), "/");
}

#[test]
fn join_adds_the_separator_where_it_is_missing() {
    assert_eq!(join_path("a", "b"), "a/b");
    assert_eq!(join_path("a/", "b"), "a/b");
    assert_eq!(join_path("", "b"), "b");
    assert_eq!(join_path("a", ""), "a/");
}

#[test]
fn trailing_separator_is_seen() {
    assert!(has_trailing_separator("/"));
    assert!(has_trailing_separator("a/"));
    assert!(!has_trailing_separator(""));
    assert!(!has_trailing_separator("a/b"));
    assert!(!has_trailing_separator("é"));
}

#[test]
fn key_bytes_reach_the_row_path() {
    let key = Key::Ordered(vec![0x00, 0x01]);
    let bytes = key.to_cmp_be_bytes().unwrap();
    assert_eq!(resolve_row_path("/warehouse", "orders", &bytes), "/warehouse/orders/0001.ron");
}

#[test]
fn separator_is_found_anywhere() {
    assert!(has_separator("/"));
    assert!(has_separator("a/b"));
    assert!(has_separator("été/"));
    assert!(!has_separator(""));
    assert!(!has_separator("orders"));
    assert!(!has_separator("a\\b"));
}

#[test]
fn sanitized_name_is_one_segment_and_not_reserved() {
    assert!(is_sanitized("orders"));
    assert!(is_sanitized("schema"));
    assert!(is_sanitized("00.ron"));
    assert!(is_sanitized("été"));
    assert!(!is_sanitized(""));
    assert!(!is_sanitized("schema.sql"));
    assert!(!is_sanitized("a/b"));
    assert!(!is_sanitized("/orders"));
    assert!(!is_sanitized("orders/"));
}

#[test]
fn sanitized_tables_share_no_object() {
    let tables = ["orders", "order", "orders2", "00", "00.ron", "schema"];
    let keys: [&[u8]; 4] = [&[], &[0x00], &[0x00, 0x01], &[0xff]];
    let mut paths: Vec<String> = Vec::new();
    for table in tables {
        assert!(is_sanitized(table));
        paths.push(resolve_table_path("/warehouse", table));
        paths.push(resolve_schema_path("/warehouse", table));
        for key in keys {
            paths.push(resolve_row_path("/warehouse", table, key));
        }
    }
    let mut distinct = paths.clone();
    distinct.sort();
    distinct.dedup();
    assert_eq!(distinct.len(), paths.len());
}

#[test]
fn unsanitized_table_can_meet_the_object_of_another() {
    assert_eq!(
        resolve_table_path("/warehouse", "orders/schema.sql"),
        resolve_schema_path("/warehouse", "orders")
    );
    assert_eq!(
        resolve_table_path("/warehouse", "schema.sql"),
        resolve_schema_path("/warehouse", "")
    );
}
