//! Which storage backend the repository runs on.
use vstd::prelude::*;

use crate::model::StorageBackend;

verus! {

/// The backend the repository is built on: always SQLite.
pub fn backend_type() -> (b: StorageBackend)
    ensures
        b == StorageBackend::Sqlite,
{
    StorageBackend::Sqlite
}

/// Whether the backend can be used now. A local SQLite database needs no
/// network, so it is always available.
pub fn is_available() -> (r: bool)
    ensures
        r,
{
    true
}

} // verus!
