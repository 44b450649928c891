//! The storage adapter: a bucket, a root prefix and a shared handle on the
//! store, with the paths and schemas of the tables that live there.

use vstd::prelude::*;
use std::sync::Arc;
use object_store_opendal::OpendalStore;
use opendal::Operator;
use crate::bootstrap::{advance, next, Event, Outcome, Phase};
use crate::connection::{build, configured, text_of};
use crate::error::StorageError;
use crate::key::Key;
use crate::path::{
    directory, resolve_row_path, resolve_schema_path, resolve_table_path, root_directory,
    row_path, schema_path, table_path,
};
use crate::schema::{schema_read, Schema};

verus! {

/// An adapter whose root prefix exists in the store.
#[derive(Debug, Clone)]
pub struct S3Storage {
    /// The bucket identifier.
    pub bucket: String,
    /// The root prefix under which all objects of the adapter live.
    pub prefix: String,
    /// The connection, shared by all operations on the adapter.
    pub store: Arc<OpendalStore>,
}

/// An adapter under construction: the connection is made, and one call
/// on the store is pending.
#[derive(Debug)]
pub struct Bootstrap {
    /// The bucket identifier.
    pub bucket: String,
    /// The root prefix that is made sure of.
    pub prefix: String,
    /// The connection on which the pending call is made.
    pub operator: Operator,
    /// The pending call.
    pub phase: Phase,
}

/// A call on the store, with the path that it is about.
#[derive(Debug, Clone, PartialEq, Eq)]
pub enum Action {
    /// Probe the existence of the path.
    Probe(String),
    /// Create the path as a directory-like object.
    CreateDir(String),
}

/// A construction after an answer of the store.
#[derive(Debug)]
pub enum Progress {
    /// A further call is pending.
    Pending(Bootstrap),
    /// The adapter is ready.
    Ready(S3Storage),
    /// The construction has failed.
    Failed(StorageError),
}

/// What the row path of a key resolves to: the path of the key's
/// canonical bytes, or the failure to encode a key that has none.
pub open spec fn resolved_data_path(prefix: Seq<char>, table_name: Seq<char>, key: Key) -> Result<
    Seq<char>,
    StorageError,
> {
    match key.canonical() {
        Some(bytes) => Ok(row_path(prefix, table_name, bytes)),
        None => Err(StorageError::Encoding),
    }
}

/// Path determinism: the paths of an adapter are decided by the text of
/// its prefix, the table's name and the key's canonical bytes. Two
/// resolutions that agree in these agree in their result, whatever the
/// adapters are connected to.
pub proof fn lemma_paths_are_determined(
    a: S3Storage,
    b: S3Storage,
    table_name: Seq<char>,
    key: Key,
    other_key: Key,
)
    requires
        a.prefix@ == b.prefix@,
        key.canonical() == other_key.canonical(),
    ensures
        table_path(a.prefix@, table_name) == table_path(b.prefix@, table_name),
        schema_path(a.prefix@, table_name) == schema_path(b.prefix@, table_name),
        resolved_data_path(a.prefix@, table_name, key) == resolved_data_path(
            b.prefix@,
            table_name,
            other_key,
        ),
{
}

impl Bootstrap {
    /// The call that the construction waits for. Both calls are about the
    /// root prefix as a directory-like object.
    pub fn action(&self) -> (out: Action)
        ensures
            match self.phase {
                Phase::Probing => out matches Action::Probe(path) && path@ == directory(
                    self.prefix@,
                ),
                Phase::Creating => out matches Action::CreateDir(path) && path@ == directory(
                    self.prefix@,
                ),
            },
    {
        let path = root_directory(self.prefix.as_str());
        match self.phase {
            Phase::Probing => Action::Probe(path),
            Phase::Creating => Action::CreateDir(path),
        }
    }

    /// Takes the answer to the pending call, as the protocol says.
    ///
    /// A construction that goes on keeps its bucket, prefix and
    /// connection; an adapter that is ready has the bucket and the prefix
    /// of its construction; a failure is the one that the protocol names.
    pub fn step(self, event: Event) -> (out: Progress)
        ensures
            match next(self.phase, event) {
                Outcome::Pending(phase) => out matches Progress::Pending(following) && following
                    == (Bootstrap { phase, ..self }),
                Outcome::Ready => out matches Progress::Ready(storage) && storage.bucket
                    == self.bucket && storage.prefix == self.prefix,
                Outcome::Failed(e) => out matches Progress::Failed(failure) && failure == e,
            },
    {
        match advance(self.phase, event) {
            Outcome::Pending(phase) => Progress::Pending(
                Bootstrap {
                    bucket: self.bucket,
                    prefix: self.prefix,
                    operator: self.operator,
                    phase,
                },
            ),
            Outcome::Ready => Progress::Ready(
                S3Storage {
                    bucket: self.bucket,
                    prefix: self.prefix,
                    store: Arc::new(OpendalStore::new(self.operator)),
                },
            ),
            Outcome::Failed(e) => Progress::Failed(e),
        }
    }
}

impl S3Storage {
    /// Begins the construction of an adapter: builds the connection and
    /// leaves the probe of the root prefix pending.
    ///
    /// Options at fault fail with `StorageError::Config` and the option,
    /// before any connection is made. A connection that the object-store
    /// client refuses fails with `StorageError::StorageMsg`.
    ///
    /// The connection of the construction does not name the adapter on its
    /// requests yet. The header is set on the transport of the connection,
    /// which is the caller's to choose: before the first call on the store
    /// the caller applies [`user_agent`](crate::connection::user_agent)
    /// there.
    pub fn new(
        bucket: &str,
        region: Option<&str>,
        prefix: &str,
        no_credentials: bool,
        endpoint: Option<&str>,
        use_ssl: Option<bool>,
        server_side_encryption: Option<bool>,
    ) -> (out: Result<Bootstrap, StorageError>)
        ensures
            match configured(
                bucket@,
                text_of(region),
                prefix@,
                no_credentials,
                text_of(endpoint),
                use_ssl,
                server_side_encryption,
            ) {
                Ok(_) => match out {
                    Ok(pending) => pending.bucket@ == bucket@ && pending.prefix@ == prefix@
                        && pending.phase == Phase::Probing,
                    Err(e) => e is StorageMsg,
                },
                Err(field) => out matches Err(e) && e == StorageError::Config(field),
            },
    {
        match build(
            bucket,
            region,
            prefix,
            no_credentials,
            endpoint,
            use_ssl,
            server_side_encryption,
        ) {
            Ok(operator) => Ok(
                Bootstrap {
                    bucket: bucket.to_owned(),
                    prefix: prefix.to_owned(),
                    operator,
                    phase: Phase::Probing,
                },
            ),
            Err(e) => Err(e),
        }
    }

    /// The path of a table: the root prefix and the table's name.
    pub fn path(&self, table_name: &str) -> (out: String)
        ensures
            out@ == table_path(self.prefix@, table_name@),
    {
        resolve_table_path(self.prefix.as_str(), table_name)
    }

    /// The path of the row object of a key: under the table's path, the
    /// key's token with the row suffix.
    ///
    /// Fails with `StorageError::Encoding` exactly on a key without a
    /// canonical byte form.
    pub fn data_path(&self, table_name: &str, key: &Key) -> (out: Result<String, StorageError>)
        ensures
            match resolved_data_path(self.prefix@, table_name@, *key) {
                Ok(text) => out matches Ok(path) && path@ == text,
                Err(e) => out matches Err(failure) && failure == e,
            },
    {
        match key.to_cmp_be_bytes() {
            Ok(bytes) => Ok(resolve_row_path(self.prefix.as_str(), table_name, bytes.as_slice())),
            Err(e) => Err(e),
        }
    }

    /// The path of the schema object of a table.
    pub fn schema_path(&self, table_name: &str) -> (out: String)
        ensures
            out@ == schema_path(self.prefix@, table_name@),
    {
        resolve_schema_path(self.prefix.as_str(), table_name)
    }

    /// Turns the result of reading the schema object of a table into the
    /// schema.
    pub fn fetch_schema<E: core::fmt::Display>(&self, read: Result<Vec<u8>, E>) -> (out: Result<
        Schema,
        StorageError,
    >)
        ensures
            schema_read(read, out),
    {
        crate::schema::fetch_schema(read)
    }
}

} // verus!
