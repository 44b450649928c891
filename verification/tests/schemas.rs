use object_storage::error::{ResultExt, StorageError};
use object_storage::schema::{fetch_schema, Schema};

#[test]
fn text_is_taken_as_the_schema() {
    let ddl = "CREATE TABLE orders (id INTEGER);";
    assert_eq!(Schema::from_ddl(ddl.as_bytes().to_vec()), Ok(Schema { ddl: ddl.to_string() }));
}

#[test]
fn text_beyond_ascii_is_decoded() {
    let ddl = "CREATE TABLE été (clé TEXT);";
    assert_eq!(Schema::from_ddl(ddl.as_bytes().to_vec()).unwrap().ddl, ddl);
}

#[test]
fn content_that_is_no_text_is_refused() {
    assert_eq!(Schema::from_ddl(vec![0xff, 0xfe, 0x00]), Err(StorageError::SchemaParse));
    assert_eq!(Schema::from_ddl(vec![0xc3]), Err(StorageError::SchemaParse));
}

#[test]
fn absent_schema_is_a_storage_failure() {
    let read: Result<Vec<u8>, &str> = Err("NotFound: no such key");
    let absent = fetch_schema(read);
    assert_eq!(absent, Err(StorageError::StorageMsg("NotFound: no such key".to_string())));

    let read: Result<Vec<u8>, &str> = Ok(Vec::new());
    let empty = fetch_schema(read);
    assert_eq!(empty, Ok(Schema { ddl: String::new() }));
    assert_ne!(absent, empty);
}

#[test]
fn schema_that_was_read_is_parsed() {
    let read: Result<Vec<u8>, String> = Ok(b"CREATE TABLE t;".to_vec());
    assert_eq!(fetch_schema(read), Ok(Schema { ddl: "CREATE TABLE t;".to_string() }));
    let read: Result<Vec<u8>, String> = Ok(vec![0x80]);
    assert_eq!(fetch_schema(read), Err(StorageError::SchemaParse));
}

#[test]
fn failure_is_flattened_to_its_description() {
    let failed: Result<u8, &str> = Err("connection reset");
    assert_eq!(
        failed.map_storage_err(),
        Err(StorageError::StorageMsg("connection reset".to_string()))
    );
    let failed: Result<u8, std::num::ParseIntError> = "x".parse::<u8>();
    assert_eq!(
        failed.map_storage_err(),
        Err(StorageError::StorageMsg("invalid digit found in string".to_string()))
    );
}

#[test]
fn success_is_kept() {
    let fine: Result<u8, &str> = Ok(7);
    assert_eq!(fine.map_storage_err(), Ok(7));
}
