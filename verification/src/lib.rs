//! A table and row persistence adapter that keeps schemas and rows as
//! objects of an S3-compatible bucket, under a configurable root prefix.
//!
//! The adapter is made of a key codec ([`codec`], [`key`]), a path resolver
//! ([`path`]), a connection builder ([`endpoint`], [`connection`]), the
//! adapter itself with its bootstrap protocol ([`bootstrap`], [`storage`],
//! [`schema`], [`capability`]) and an error boundary ([`error`]). What it
//! relies on of the object-store client is gathered in [`client`].
//!
//! The library makes no call on the remote store. It says which call is
//! due, and takes the answer.

pub mod bootstrap;
pub mod capability;
pub mod client;
pub mod codec;
pub mod connection;
pub mod endpoint;
pub mod error;
pub mod key;
pub mod path;
pub mod schema;
pub mod storage;

pub use error::{ResultExt, StorageError};
pub use key::{DataRow, Key, S3Row};
pub use schema::Schema;
pub use storage::S3Storage;
