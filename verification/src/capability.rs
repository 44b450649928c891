//! The extension points of the engine that a storage backend declares.
//!
//! Each of them comes with the engine's default behaviour, which serves
//! any backend that does not implement the extension point specially. The
//! adapter declares all of them and overrides none.

use vstd::prelude::*;
use crate::storage::S3Storage;

verus! {

/// Tables whose definition can be altered.
pub trait AlterTable {

}

/// Reads through secondary indexes.
pub trait Index {

}

/// Creation and removal of secondary indexes.
pub trait IndexMut {

}

/// Transactions.
pub trait Transaction {

}

/// Metadata about what is stored.
pub trait Metadata {

}

/// Lookup of custom functions.
pub trait CustomFunction {

}

/// Registration and removal of custom functions.
pub trait CustomFunctionMut {

}

impl AlterTable for S3Storage {

}

impl Index for S3Storage {

}

impl IndexMut for S3Storage {

}

impl Transaction for S3Storage {

}

impl Metadata for S3Storage {

}

impl CustomFunction for S3Storage {

}

impl CustomFunctionMut for S3Storage {

}

} // verus!
