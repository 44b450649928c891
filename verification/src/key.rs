//! Row keys and row records as the adapter sees them.

use vstd::prelude::*;
use crate::codec::{
    bytes_lt, encode_hex, hex, lemma_hex_injective, lemma_hex_preserves_order, str_lt,
};
use crate::error::StorageError;

verus! {

/// A row key of the engine, reduced to what the adapter reads of it.
///
/// The engine orders its keys, and the canonical encoding of a key is a
/// big-endian byte sequence whose byte-lexicographic order is that order.
/// Not every variant of a key has such a form.
#[derive(Debug, Clone, PartialEq, Eq)]
pub enum Key {
    /// A key with a canonical form, held as its comparison-preserving
    /// big-endian bytes.
    Ordered(Vec<u8>),
    /// A key of a variant that has no canonical byte form.
    Unordered,
}

/// The engine's row payload, opaque to the adapter.
#[derive(Debug, Clone, PartialEq, Eq)]
pub struct DataRow {
    /// The payload as the engine handed it over.
    pub payload: Vec<u8>,
}

/// A row record: the content of one row object.
#[derive(Debug)]
pub struct S3Row {
    /// The key under which the row is stored.
    pub key: Key,
    /// The row itself.
    pub row: DataRow,
}

impl Key {
    /// The canonical bytes of the key, where it has any.
    pub open spec fn canonical(self) -> Option<Seq<u8>> {
        match self {
            Key::Ordered(bytes) => Some(bytes@),
            Key::Unordered => None,
        }
    }

    /// The engine's order on keys: both keys have a canonical form, and
    /// the bytes of the first come before those of the second.
    pub open spec fn lt(self, other: Key) -> bool {
        match (self.canonical(), other.canonical()) {
            (Some(a), Some(b)) => bytes_lt(a, b),
            _ => false,
        }
    }

    /// The token of the key: its canonical bytes in hexadecimal.
    pub open spec fn token(self) -> Option<Seq<char>> {
        match self.canonical() {
            Some(bytes) => Some(hex(bytes)),
            None => None,
        }
    }

    /// Order preservation: where one key comes before another in the
    /// engine's order, its token comes before the other's as a plain
    /// string.
    pub proof fn lemma_order_is_preserved(self, other: Key)
        requires
            self.lt(other),
        ensures
            self.token() is Some,
            other.token() is Some,
            str_lt(self.token()->Some_0, other.token()->Some_0),
    {
        lemma_hex_preserves_order(self.canonical()->Some_0, other.canonical()->Some_0);
    }

    /// Keys with the same token have the same canonical bytes.
    pub proof fn lemma_token_tells_keys_apart(self, other: Key)
        requires
            self.token() is Some,
            self.token() == other.token(),
        ensures
            self.canonical() == other.canonical(),
    {
        lemma_hex_injective(self.canonical()->Some_0, other.canonical()->Some_0);
    }

    /// The canonical comparison-preserving big-endian bytes of the key.
    /// Fails with [`StorageError::Encoding`] exactly on a key without such
    /// a form.
    pub fn to_cmp_be_bytes(&self) -> (out: Result<Vec<u8>, StorageError>)
        ensures
            match self.canonical() {
                Some(bytes) => out matches Ok(v) && v@ == bytes,
                None => out == Err::<Vec<u8>, StorageError>(StorageError::Encoding),
            },
    {
        match self {
            Key::Ordered(bytes) => Ok(bytes.clone()),
            Key::Unordered => Err(StorageError::Encoding),
        }
    }
}

/// Encodes a key as its token: the canonical bytes of the key in lowercase
/// hexadecimal, fit for a path segment.
///
/// Fails with [`StorageError::Encoding`] exactly on a key without a
/// canonical form.
pub fn encode_key(key: &Key) -> (out: Result<String, StorageError>)
    ensures
        match key.token() {
            Some(token) => out matches Ok(s) && s@ == token,
            None => out == Err::<String, StorageError>(StorageError::Encoding),
        },
{
    match key {
        Key::Ordered(bytes) => Ok(encode_hex(bytes.as_slice())),
        Key::Unordered => Err(StorageError::Encoding),
    }
}

} // verus!
