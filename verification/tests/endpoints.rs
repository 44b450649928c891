use object_storage::endpoint::{endpoint_resolver, scheme_of};
use object_storage::error::{ConfigField, StorageError};

#[test]
fn bare_endpoint_takes_the_secure_scheme_by_default() {
    assert_eq!(endpoint_resolver("localhost:9000", None), Ok("https://localhost:9000".to_string()));
    assert_eq!(
        endpoint_resolver("s3.example.com", Some(true)),
        Ok("https://s3.example.com".to_string())
    );
}

#[test]
fn bare_endpoint_without_tls_takes_the_plain_scheme() {
    assert_eq!(
        endpoint_resolver("127.0.0.1:9000", Some(false)),
        Ok("http://127.0.0.1:9000".to_string())
    );
}

#[test]
fn stated_scheme_stays_where_the_flag_agrees_or_is_absent() {
    assert_eq!(endpoint_resolver("http://minio:9000", None), Ok("http://minio:9000".to_string()));
    assert_eq!(
        endpoint_resolver("http://minio:9000", Some(false)),
        Ok("http://minio:9000".to_string())
    );
    assert_eq!(
        endpoint_resolver("https://s3.example.com/", Some(true)),
        Ok("https://s3.example.com/".to_string())
    );
}

#[test]
fn flag_against_the_stated_scheme_is_refused() {
    assert_eq!(
        endpoint_resolver("http://minio:9000", Some(true)),
        Err(StorageError::Config(ConfigField::UseSsl))
    );
    assert_eq!(
        endpoint_resolver("https://minio:9000", Some(false)),
        Err(StorageError::Config(ConfigField::UseSsl))
    );
}

#[test]
fn malformed_endpoint_is_refused() {
    let malformed = [
        "",
        "https://",
        "http://",
        "local host",
        "host\t",
        "host\n",
        "ftp://host",
        "https://http://host",
        "HTTP://host",
        "höst",
        "https://höst",
        "host\u{7f}",
    ];
    for endpoint in malformed {
        for flag in [None, Some(true), Some(false)] {
            assert_eq!(
                endpoint_resolver(endpoint, flag),
                Err(StorageError::Config(ConfigField::Endpoint)),
                "{:?} {:?}",
                endpoint,
                flag
            );
        }
    }
}

#[test]
fn colon_and_slashes_alone_are_no_scheme_mark() {
    assert_eq!(endpoint_resolver("host:9000/a//b", None), Ok("https://host:9000/a//b".to_string()));
    assert_eq!(endpoint_resolver("host:/", Some(false)), Ok("http://host:/".to_string()));
}

#[test]
fn stated_scheme_is_read_from_the_start() {
    assert_eq!(scheme_of("https://host"), Some(true));
    assert_eq!(scheme_of("http://host"), Some(false));
    assert_eq!(scheme_of("https://é"), Some(true));
    assert_eq!(scheme_of("host"), None);
    assert_eq!(scheme_of("http:/host"), None);
    assert_eq!(scheme_of("xhttp://host"), None);
    assert_eq!(scheme_of(""), None);
}
