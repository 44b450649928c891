//! Table schemas as the adapter stores them: data-definition text, one
//! object per table.

use vstd::prelude::*;
use vstd::utf8::{decode_utf8, encode_utf8, encode_utf8_decode_utf8, valid_utf8};
use std::string::FromUtf8Error;
use crate::error::{ResultExt, StorageError};

verus! {

/// The error of `String::from_utf8`.
#[verifier::external_type_specification]
#[verifier::external_body]
pub struct ExFromUtf8Error(FromUtf8Error);

/// `String::from_utf8`: succeeds exactly on valid UTF-8, and the string
/// that comes back is the text that the bytes encode.
pub assume_specification[ String::from_utf8 ](bytes: Vec<u8>) -> (out: Result<
    String,
    FromUtf8Error,
>)
    ensures
        out is Ok <==> valid_utf8(bytes@),
        out matches Ok(text) ==> encode_utf8(text@) == bytes@,
;

/// The schema of one table: its data-definition text.
#[derive(Debug, Clone, PartialEq, Eq)]
pub struct Schema {
    /// The text, as it was read.
    pub ddl: String,
}

/// The text of a schema object, where its content is any: the content
/// decoded as UTF-8.
pub open spec fn ddl_text(content: Seq<u8>) -> Option<Seq<char>> {
    if valid_utf8(content) {
        Some(decode_utf8(content))
    } else {
        None
    }
}

impl Schema {
    /// Takes the content of a schema object as data-definition text.
    ///
    /// Fails with `StorageError::SchemaParse` exactly where the content is
    /// no text at all, that is no valid UTF-8.
    pub fn from_ddl(content: Vec<u8>) -> (out: Result<Schema, StorageError>)
        ensures
            match ddl_text(content@) {
                Some(text) => out matches Ok(schema) && schema.ddl@ == text,
                None => out == Err::<Schema, StorageError>(StorageError::SchemaParse),
            },
    {
        match String::from_utf8(content) {
            Ok(ddl) => {
                proof {
                    encode_utf8_decode_utf8(ddl@);
                }
                Ok(Schema { ddl })
            },
            Err(_) => Err(StorageError::SchemaParse),
        }
    }
}

/// What the read of a schema object amounts to: a failure of the read
/// flattened to a storage failure, or the schema that the content holds.
pub open spec fn schema_read<E: core::fmt::Display>(
    read: Result<Vec<u8>, E>,
    out: Result<Schema, StorageError>,
) -> bool {
    match read {
        Ok(content) => match ddl_text(content@) {
            Some(text) => out matches Ok(schema) && schema.ddl@ == text,
            None => out == Err::<Schema, StorageError>(StorageError::SchemaParse),
        },
        Err(failure) => out matches Err(StorageError::StorageMsg(message))
            && vstd::string::to_string_from_display_ensures::<E>(&failure, message),
    }
}

/// Turns the result of reading a schema object into the schema.
///
/// A read that failed, for an absent object as for any other reason, is a
/// storage failure with the store's description, and never a schema.
/// Content that was read is taken as data-definition text, and refused
/// with `StorageError::SchemaParse` where it is none.
pub fn fetch_schema<E: core::fmt::Display>(read: Result<Vec<u8>, E>) -> (out: Result<
    Schema,
    StorageError,
>)
    ensures
        schema_read(read, out),
{
    match read.map_storage_err() {
        Ok(content) => Schema::from_ddl(content),
        Err(e) => Err(e),
    }
}

} // verus!
