//! The error model of the adapter and the boundary that turns failures of the
//! object-store client into it.

use vstd::prelude::*;
use vstd::string::to_string_from_display_ensures;

verus! {

/// The option of a connection that a configuration error is about.
#[derive(Debug, Clone, Copy, PartialEq, Eq, Structural)]
pub enum ConfigField {
    /// The bucket identifier.
    Bucket,
    /// The endpoint that overrides the regional default.
    Endpoint,
    /// The flag that selects between `https://` and `http://`.
    UseSsl,
}

/// A failure that the adapter reports to the engine.
#[derive(Debug, Clone, PartialEq, Eq)]
pub enum StorageError {
    /// The connection options are invalid or contradict each other; the
    /// offending option is named.
    Config(ConfigField),
    /// Probing or creating the root prefix failed for a reason other than
    /// the prefix being absent; the store's description is carried.
    Bootstrap(String),
    /// A key has no canonical comparison-preserving byte form.
    Encoding,
    /// The content of a schema object is not data-definition text.
    SchemaParse,
    /// Any other failure of the object-store client, flattened to its
    /// human-readable description.
    StorageMsg(String),
}

/// Flattens the error of a result into [`StorageError::StorageMsg`].
pub trait ResultExt<T, E: core::fmt::Display> {
    /// The result that `map_storage_err` gives.
    spec fn storage_mapped(self, out: Result<T, StorageError>) -> bool;

    /// Keeps a success as it is and replaces a failure by
    /// `StorageError::StorageMsg` with the failure's description.
    fn map_storage_err(self) -> (out: Result<T, StorageError>)
        ensures
            self.storage_mapped(out),
    ;
}

impl<T, E: core::fmt::Display> ResultExt<T, E> for Result<T, E> {
    open spec fn storage_mapped(self, out: Result<T, StorageError>) -> bool {
        match self {
            Ok(v) => out == Ok::<T, StorageError>(v),
            Err(e) => out matches Err(StorageError::StorageMsg(message))
                && to_string_from_display_ensures::<E>(&e, message),
        }
    }

    fn map_storage_err(self) -> (out: Result<T, StorageError>) {
        match self {
            Ok(v) => Ok(v),
            Err(e) => Err(StorageError::StorageMsg(e.to_string())),
        }
    }
}

} // verus!
