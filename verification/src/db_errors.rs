//! The closed set of failures that the persistence helper reports.

use vstd::prelude::*;

verus! {

/// What the storage driver reported when a statement failed.
#[derive(Debug, Clone, PartialEq, Eq)]
pub enum DriverError {
    /// The statement was expected to yield a row and yielded none.
    NotFound,
    /// Any other failure, with the driver's own description of it.
    Failure(String),
}

/// A failure of the persistence helper; callers match on the variant.
#[derive(Debug, Clone, PartialEq, Eq)]
pub enum DbError {
    /// No connection string was configured.
    ConfigurationError,
    /// The one connection attempt failed; `address` is the target it was made against.
    ConnectionError { address: String },
    /// An insert or a query failed in the driver or the database.
    PersistenceError(DriverError),
    /// The largest id was asked of an empty table.
    NotFoundError,
}

impl DriverError {
    /// The text of this failure.
    pub open spec fn text(self) -> Seq<char> {
        match self {
            DriverError::NotFound => "Record not found"@,
            DriverError::Failure(description) => description@,
        }
    }

    /// A printable description of this failure.
    pub fn message(&self) -> (s: String)
        ensures
            s@ == self.text(),
    {
        match self {
            DriverError::NotFound => "Record not found".to_owned(),
            DriverError::Failure(description) => description.clone(),
        }
    }
}

impl DbError {
    /// The text of this failure.
    pub open spec fn text(self) -> Seq<char> {
        match self {
            DbError::ConfigurationError => "DATABASE_URL must be set"@,
            DbError::ConnectionError { address } => "Error connecting to "@ + address@,
            DbError::PersistenceError(cause) => cause.text(),
            DbError::NotFoundError => "Record not found"@,
        }
    }

    /// A printable description of this failure.
    pub fn message(&self) -> (s: String)
        ensures
            s@ == self.text(),
    {
        match self {
            DbError::ConfigurationError => "DATABASE_URL must be set".to_owned(),
            DbError::ConnectionError { address } => {
                "Error connecting to ".to_owned().concat(address.as_str())
            },
            DbError::PersistenceError(cause) => cause.message(),
            DbError::NotFoundError => "Record not found".to_owned(),
        }
    }
}

} // verus!
