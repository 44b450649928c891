//! The connection builder: from the named options of an adapter to a
//! handle on the remote object store.
//!
//! The options are resolved first, into a [`ConnectionConfig`] of plain
//! values. Only then are they handed to the S3 service of the object-store
//! client, so a configuration that is at fault never reaches it.

use vstd::prelude::*;
use opendal::services::S3;
use opendal::Operator;
use crate::client::{
    new_operator, provider_managed_encryption, s3_settings, with_logging,
    without_trailing_slashes, S3Settings,
};
use crate::endpoint::{endpoint_resolver, resolved, resolved_secure};
use crate::error::{ConfigField, ResultExt, StorageError};

verus! {

/// The options of a connection, resolved once. Plain values only.
#[derive(Debug, Clone, PartialEq, Eq)]
pub struct ConnectionConfig {
    /// The bucket identifier.
    pub bucket: String,
    /// The root prefix under which all objects of the adapter live.
    pub root: String,
    /// The region, where one was given.
    pub region: Option<String>,
    /// The address that overrides the regional default, with its scheme.
    pub endpoint: Option<String>,
    /// Whether the address is reached over TLS, where there is one.
    pub use_ssl: Option<bool>,
    /// No ambient credential configuration is loaded.
    pub disable_config_load: bool,
    /// The instance metadata service is not probed for credentials.
    pub disable_ec2_metadata: bool,
    /// Requests go out without a signature.
    pub allow_anonymous: bool,
    /// Writes are encrypted on the server with a provider-managed key.
    pub server_side_encryption: bool,
}

/// The value of a [`ConnectionConfig`]: the same options, as texts.
pub ghost struct ConnectionOptions {
    /// The bucket identifier.
    pub bucket: Seq<char>,
    /// The root prefix.
    pub root: Seq<char>,
    /// The region, where one was given.
    pub region: Option<Seq<char>>,
    /// The address that overrides the regional default, with its scheme.
    pub endpoint: Option<Seq<char>>,
    /// Whether the address is reached over TLS, where there is one.
    pub use_ssl: Option<bool>,
    /// No ambient credential configuration is loaded.
    pub disable_config_load: bool,
    /// The instance metadata service is not probed for credentials.
    pub disable_ec2_metadata: bool,
    /// Requests go out without a signature.
    pub allow_anonymous: bool,
    /// Writes are encrypted on the server with a provider-managed key.
    pub server_side_encryption: bool,
}

/// The text of an optional string slice.
pub open spec fn text_of(value: Option<&str>) -> Option<Seq<char>> {
    match value {
        Some(s) => Some(s@),
        None => None,
    }
}

/// The text of an optional string.
pub open spec fn text_of_owned(value: Option<String>) -> Option<Seq<char>> {
    match value {
        Some(s) => Some(s@),
        None => None,
    }
}

impl View for ConnectionConfig {
    type V = ConnectionOptions;

    open spec fn view(&self) -> ConnectionOptions {
        ConnectionOptions {
            bucket: self.bucket@,
            root: self.root@,
            region: text_of_owned(self.region),
            endpoint: text_of_owned(self.endpoint),
            use_ssl: self.use_ssl,
            disable_config_load: self.disable_config_load,
            disable_ec2_metadata: self.disable_ec2_metadata,
            allow_anonymous: self.allow_anonymous,
            server_side_encryption: self.server_side_encryption,
        }
    }
}

/// The options that the arguments of a construction resolve to, or the
/// option that is at fault.
///
/// An endpoint is resolved first, together with the TLS flag, which means
/// nothing without one: where the resolver finds an option at fault, that
/// option is named, whatever the other arguments are. Then the bucket must
/// be named. A region is kept only where one is given. Without credentials
/// the connection is anonymous and nothing else: all three of its
/// credential flags are set, and none of them otherwise. Encryption is off
/// unless it is asked for.
pub open spec fn configured(
    bucket: Seq<char>,
    region: Option<Seq<char>>,
    prefix: Seq<char>,
    no_credentials: bool,
    endpoint: Option<Seq<char>>,
    use_ssl: Option<bool>,
    server_side_encryption: Option<bool>,
) -> Result<ConnectionOptions, ConfigField> {
    if endpoint is Some && resolved(endpoint->Some_0, use_ssl) is Err {
        Err(resolved(endpoint->Some_0, use_ssl)->Err_0)
    } else if bucket.len() == 0 {
        Err(ConfigField::Bucket)
    } else {
        Ok(
            ConnectionOptions {
                bucket,
                root: prefix,
                region,
                endpoint: match endpoint {
                    Some(e) => Some(resolved(e, use_ssl)->Ok_0),
                    None => None,
                },
                use_ssl: match endpoint {
                    Some(e) => Some(resolved_secure(e, use_ssl)),
                    None => None,
                },
                disable_config_load: no_credentials,
                disable_ec2_metadata: no_credentials,
                allow_anonymous: no_credentials,
                server_side_encryption: server_side_encryption == Some(true),
            },
        )
    }
}

/// An endpoint at fault is named before anything else: where the
/// endpoint resolver refuses an endpoint, the construction fails with the
/// option that the resolver names, whatever the bucket and the other
/// arguments are.
pub proof fn lemma_endpoint_at_fault_is_named(
    bucket: Seq<char>,
    region: Option<Seq<char>>,
    prefix: Seq<char>,
    no_credentials: bool,
    endpoint: Seq<char>,
    use_ssl: Option<bool>,
    server_side_encryption: Option<bool>,
)
    requires
        resolved(endpoint, use_ssl) is Err,
    ensures
        configured(
            bucket,
            region,
            prefix,
            no_credentials,
            Some(endpoint),
            use_ssl,
            server_side_encryption,
        ) == Err::<ConnectionOptions, ConfigField>(resolved(endpoint, use_ssl)->Err_0),
{
}

/// The header value by which the adapter names itself on every request.
pub open spec fn user_agent_text() -> Seq<char> {
    seq!['o', 'b', 'j', 'e', 'c', 't', '-', 's', 't', 'o', 'r', 'a', 'g', 'e']
}

/// The header value by which the adapter names itself on every request.
pub fn user_agent() -> (out: &'static str)
    ensures
        out@ == user_agent_text(),
{
    proof {
        reveal_strlit("object-storage");
        assert("object-storage"@ =~= user_agent_text());
    }
    "object-storage"
}

impl ConnectionConfig {
    /// Resolves the arguments of a construction, all or nothing.
    ///
    /// Fails with `StorageError::Config` and the option at fault: the
    /// endpoint or the TLS flag as the endpoint resolver finds, else the
    /// bucket where it is empty.
    pub fn resolve(
        bucket: &str,
        region: Option<&str>,
        prefix: &str,
        no_credentials: bool,
        endpoint: Option<&str>,
        use_ssl: Option<bool>,
        server_side_encryption: Option<bool>,
    ) -> (out: Result<ConnectionConfig, StorageError>)
        ensures
            match configured(
                bucket@,
                text_of(region),
                prefix@,
                no_credentials,
                text_of(endpoint),
                use_ssl,
                server_side_encryption,
            ) {
                Ok(options) => out matches Ok(config) && config@ == options,
                Err(field) => out == Err::<ConnectionConfig, StorageError>(
                    StorageError::Config(field),
                ),
            },
    {
        let mut address: Option<String> = None;
        let mut secure: Option<bool> = None;
        if let Some(given) = endpoint {
            match endpoint_resolver(given, use_ssl) {
                Ok(resolved) => {
                    secure = Some(scheme_is_secure(given, use_ssl));
                    address = Some(resolved);
                },
                Err(e) => {
                    return Err(e);
                },
            }
        }
        if bucket.is_empty() {
            return Err(StorageError::Config(ConfigField::Bucket));
        }
        let region: Option<String> = match region {
            Some(r) => Some(r.to_owned()),
            None => None,
        };
        let encrypt: bool = match server_side_encryption {
            Some(flag) => flag,
            None => false,
        };
        Ok(
            ConnectionConfig {
                bucket: bucket.to_owned(),
                root: prefix.to_owned(),
                region,
                endpoint: address,
                use_ssl: secure,
                disable_config_load: no_credentials,
                disable_ec2_metadata: no_credentials,
                allow_anonymous: no_credentials,
                server_side_encryption: encrypt,
            },
        )
    }
}

/// Whether the address of a resolved endpoint is reached over TLS.
fn scheme_is_secure(endpoint: &str, use_ssl: Option<bool>) -> (out: bool)
    ensures
        out == resolved_secure(endpoint@, use_ssl),
{
    match crate::endpoint::scheme_of(endpoint) {
        Some(stated) => stated,
        None => match use_ssl {
            Some(flag) => flag,
            None => true,
        },
    }
}

/// The settings that the S3 service is given for a configuration.
///
/// The service takes an empty root or region as none, and an address
/// without the separators at its end. The three credential flags go over
/// one by one, and encryption is the one with a provider-managed key.
pub open spec fn settings_of(options: ConnectionOptions) -> S3Settings {
    S3Settings {
        bucket: options.bucket,
        root: if options.root.len() == 0 {
            None
        } else {
            Some(options.root)
        },
        region: match options.region {
            Some(region) if region.len() > 0 => Some(region),
            _ => None,
        },
        endpoint: match options.endpoint {
            Some(endpoint) if endpoint.len() > 0 => Some(without_trailing_slashes(endpoint)),
            _ => None,
        },
        disable_config_load: options.disable_config_load,
        disable_ec2_metadata: options.disable_ec2_metadata,
        skip_signature: options.allow_anonymous,
        server_side_encryption: if options.server_side_encryption {
            Some(provider_managed_encryption())
        } else {
            None
        },
    }
}

/// Without credentials the service is told to load no ambient
/// configuration, to leave the instance metadata service alone and to
/// send unsigned requests; with credentials it is told none of the three.
pub proof fn lemma_anonymous_mode_is_exclusive(
    bucket: Seq<char>,
    region: Option<Seq<char>>,
    prefix: Seq<char>,
    no_credentials: bool,
    endpoint: Option<Seq<char>>,
    use_ssl: Option<bool>,
    server_side_encryption: Option<bool>,
)
    requires
        configured(
            bucket,
            region,
            prefix,
            no_credentials,
            endpoint,
            use_ssl,
            server_side_encryption,
        ) is Ok,
    ensures
        ({
            let settings = settings_of(
                configured(
                    bucket,
                    region,
                    prefix,
                    no_credentials,
                    endpoint,
                    use_ssl,
                    server_side_encryption,
                )->Ok_0,
            );
            &&& settings.disable_config_load == no_credentials
            &&& settings.disable_ec2_metadata == no_credentials
            &&& settings.skip_signature == no_credentials
        }),
{
}

/// Hands the options of a configuration to a builder of the S3 service.
pub fn s3_builder(config: &ConnectionConfig) -> (out: S3)
    ensures
        s3_settings(out) == settings_of(config@),
{
    let mut builder = S3::default().bucket(config.bucket.as_str()).root(config.root.as_str());
    if let Some(region) = &config.region {
        builder = builder.region(region.as_str());
    }
    if config.disable_config_load {
        builder = builder.disable_config_load();
    }
    if config.disable_ec2_metadata {
        builder = builder.disable_ec2_metadata();
    }
    if config.allow_anonymous {
        builder = builder.skip_signature();
    }
    if let Some(endpoint) = &config.endpoint {
        builder = builder.endpoint(endpoint.as_str());
    }
    if config.server_side_encryption {
        builder = builder.server_side_encryption_with_s3_key();
    }
    builder
}

/// Opens the connection that a configuration describes: an S3 service
/// with the settings of the configuration, and logging around every
/// operation.
///
/// A configuration without a bucket is always refused. Whether the
/// object-store client accepts any other is its own matter and depends on
/// the environment of the process. What it refuses comes back flattened
/// to `StorageError::StorageMsg`.
pub fn connect(config: &ConnectionConfig) -> (out: Result<Operator, StorageError>)
    ensures
        config.bucket@.len() == 0 ==> out is Err,
        out matches Err(e) ==> e is StorageMsg,
{
    match new_operator(s3_builder(config)).map_storage_err() {
        Ok(operator) => Ok(with_logging(operator)),
        Err(e) => Err(e),
    }
}

/// Builds the connection of an adapter from its named options.
///
/// Options at fault are refused before the object-store client sees them,
/// with `StorageError::Config` and the option. Any other failure is one of
/// the client and comes back as `StorageError::StorageMsg`.
///
/// The handle that comes back does not name the adapter on its requests
/// yet. The header is set on the transport of the handle, which is the
/// caller's to choose: the caller applies [`user_agent`] there.
pub fn build(
    bucket: &str,
    region: Option<&str>,
    prefix: &str,
    no_credentials: bool,
    endpoint: Option<&str>,
    use_ssl: Option<bool>,
    server_side_encryption: Option<bool>,
) -> (out: Result<Operator, StorageError>)
    ensures
        match configured(
            bucket@,
            text_of(region),
            prefix@,
            no_credentials,
            text_of(endpoint),
            use_ssl,
            server_side_encryption,
        ) {
            Ok(_) => out matches Err(e) ==> e is StorageMsg,
            Err(field) => out == Err::<Operator, StorageError>(StorageError::Config(field)),
        },
{
    match ConnectionConfig::resolve(
        bucket,
        region,
        prefix,
        no_credentials,
        endpoint,
        use_ssl,
        server_side_encryption,
    ) {
        Ok(config) => connect(&config),
        Err(e) => Err(e),
    }
}

} // verus!
