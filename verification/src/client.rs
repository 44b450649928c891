//! The object-store client, as far as the adapter relies on it.
//!
//! Nothing in this file is proved. Each item states what the adapter
//! takes on trust of the client, and every proof about the connection
//! rests on it.

use vstd::prelude::*;
use object_store_opendal::OpendalStore;
use opendal::layers::LoggingLayer;
use opendal::services::S3;
use opendal::Operator;

verus! {

/// The S3 service builder of the client.
#[verifier::external_type_specification]
#[verifier::external_body]
pub struct ExS3(S3);

/// The handle of the client on a remote store.
#[verifier::external_type_specification]
#[verifier::external_body]
pub struct ExOperator(Operator);

/// The error type of the client.
#[verifier::external_type_specification]
#[verifier::external_body]
pub struct ExClientError(opendal::Error);

/// The object store that the engine's row operations go through.
#[verifier::external_type_specification]
#[verifier::external_body]
pub struct ExOpendalStore(OpendalStore);

/// The options of an S3 service that the adapter sets.
pub ghost struct S3Settings {
    /// The bucket of the service.
    pub bucket: Seq<char>,
    /// The root under which every operation happens.
    pub root: Option<Seq<char>>,
    /// The signing region.
    pub region: Option<Seq<char>>,
    /// The address of the service.
    pub endpoint: Option<Seq<char>>,
    /// No configuration is loaded from the environment or from files.
    pub disable_config_load: bool,
    /// No credential is asked of the instance metadata service.
    pub disable_ec2_metadata: bool,
    /// No credential is loaded and requests go out unsigned.
    pub skip_signature: bool,
    /// The server-side encryption that writes ask for.
    pub server_side_encryption: Option<Seq<char>>,
}

/// What a builder holds of those options.
pub uninterp spec fn s3_settings(builder: S3) -> S3Settings;

/// The settings of a builder on which nothing was set.
pub open spec fn no_settings() -> S3Settings {
    S3Settings {
        bucket: Seq::empty(),
        root: None,
        region: None,
        endpoint: None,
        disable_config_load: false,
        disable_ec2_metadata: false,
        skip_signature: false,
        server_side_encryption: None,
    }
}

/// A text without the separators `/` at its end.
pub open spec fn without_trailing_slashes(text: Seq<char>) -> Seq<char>
    decreases text.len(),
{
    if text.len() > 0 && text.last() == '/' {
        without_trailing_slashes(text.drop_last())
    } else {
        text
    }
}

/// The name of the encryption with a key that the provider manages.
pub open spec fn provider_managed_encryption() -> Seq<char> {
    seq!['A', 'E', 'S', '2', '5', '6']
}

/// `S3::default`: a builder on which nothing is set.
pub assume_specification[ <S3 as core::default::Default>::default ]() -> (out: S3)
    ensures
        s3_settings(out) == no_settings(),
;

/// `S3::bucket`: sets the bucket to the name given.
pub assume_specification[ S3::bucket ](builder: S3, bucket: &str) -> (out: S3)
    ensures
        s3_settings(out) == (S3Settings { bucket: bucket@, ..s3_settings(builder) }),
;

/// `S3::root`: sets the root to the path given, and to none where the
/// path is empty.
pub assume_specification[ S3::root ](builder: S3, root: &str) -> (out: S3)
    ensures
        s3_settings(out) == (S3Settings {
            root: if root@.len() == 0 {
                None
            } else {
                Some(root@)
            },
            ..s3_settings(builder)
        }),
;

/// `S3::region`: sets the region to the name given, and changes nothing
/// where the name is empty.
pub assume_specification[ S3::region ](builder: S3, region: &str) -> (out: S3)
    ensures
        s3_settings(out) == if region@.len() == 0 {
            s3_settings(builder)
        } else {
            S3Settings { region: Some(region@), ..s3_settings(builder) }
        },
;

/// `S3::endpoint`: sets the address to the one given without the
/// separators at its end, and changes nothing where the one given is
/// empty.
pub assume_specification[ S3::endpoint ](builder: S3, endpoint: &str) -> (out: S3)
    ensures
        s3_settings(out) == if endpoint@.len() == 0 {
            s3_settings(builder)
        } else {
            S3Settings {
                endpoint: Some(without_trailing_slashes(endpoint@)),
                ..s3_settings(builder)
            }
        },
;

/// `S3::disable_config_load`: sets the flag of that name.
pub assume_specification[ S3::disable_config_load ](builder: S3) -> (out: S3)
    ensures
        s3_settings(out) == (S3Settings { disable_config_load: true, ..s3_settings(builder) }),
;

/// `S3::disable_ec2_metadata`: sets the flag of that name.
pub assume_specification[ S3::disable_ec2_metadata ](builder: S3) -> (out: S3)
    ensures
        s3_settings(out) == (S3Settings { disable_ec2_metadata: true, ..s3_settings(builder) }),
;

/// `S3::skip_signature`: sets the flag of that name.
pub assume_specification[ S3::skip_signature ](builder: S3) -> (out: S3)
    ensures
        s3_settings(out) == (S3Settings { skip_signature: true, ..s3_settings(builder) }),
;

/// `S3::server_side_encryption_with_s3_key`: sets the server-side
/// encryption to `AES256`.
pub assume_specification[ S3::server_side_encryption_with_s3_key ](builder: S3) -> (out: S3)
    ensures
        s3_settings(out) == (S3Settings {
            server_side_encryption: Some(provider_managed_encryption()),
            ..s3_settings(builder)
        }),
;

/// `OpendalStore::new`: the object store over a handle of the client.
pub assume_specification[ OpendalStore::new ](operator: Operator) -> (out: OpendalStore);

/// `Operator::new` on an S3 builder. The service tests the bucket before
/// anything else and refuses a builder whose bucket is empty. Whether it
/// accepts any other builder depends on the builder and on the
/// environment of the process: of that nothing is claimed.
#[verifier::external_body]
pub(crate) fn new_operator(builder: S3) -> (out: Result<Operator, opendal::Error>)
    ensures
        s3_settings(builder).bucket.len() == 0 ==> out is Err,
{
    Operator::new(builder)
}

/// `Operator::layer` with the default `LoggingLayer`: the handle that
/// comes back logs every operation.
#[verifier::external_body]
pub(crate) fn with_logging(operator: Operator) -> (out: Operator) {
    operator.layer(LoggingLayer::default())
}

/// `opendal::Error::kind`, compared with `ErrorKind::NotFound`: whether a
/// failure of the client is its "not found".
#[verifier::external_body]
pub(crate) fn is_not_found(failure: &opendal::Error) -> (out: bool) {
    failure.kind() == opendal::ErrorKind::NotFound
}

} // verus!
