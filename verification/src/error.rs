//! The one error of the storage operations.

use vstd::prelude::*;

verus! {

/// Why a storage operation failed.
#[derive(Debug, PartialEq)]
pub enum StorageError {
    /// The list name is not a valid table name; the database was not touched.
    InvalidListName,
    /// The database refused or failed the operation.
    Engine(rusqlite::Error),
}

} // verus!
