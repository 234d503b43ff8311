//! The repository's errors.

use vstd::prelude::*;

verus! {

/// A failure reported by the database driver, by its message.
#[derive(Debug)]
pub struct MongoError {
    pub message: String,
}

/// Why a repository operation did not succeed.
#[derive(Debug)]
pub enum RepositoryError {
    /// The connection could not be set up.
    InitializationFailed,
    /// The connection has not been set up yet.
    UnIntialized,
    /// The driver refused a request made while connecting.
    ClientError(MongoError),
    /// A session could not be started.
    SessionCreationError(MongoError),
    /// A value could not be turned into a BSON document; the message says why.
    BsonSerializationFailed(String),
    /// A BSON document could not be turned into a value; the message says why.
    BsonDeSerializationFailed(String),
    /// Counting documents failed; the message says why.
    CountFailed(String),
    /// No document matched.
    NoDocument,
    FindFailed(MongoError),
    InsertOneFailed(MongoError),
    InsertManyFailed(MongoError),
    UpdateOneFailed(MongoError),
}

} // verus!
