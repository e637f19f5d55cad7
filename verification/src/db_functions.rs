//! The three operations of the helper: open a session, insert an item, look up
//! the largest id.
//!
//! Each operation takes the one storage step it needs as a function that it
//! calls at most once, and decides everything around that step: whether the
//! step is taken at all, what is handed to it, and what its outcome means to
//! the caller. Nothing is retried and no failure is dropped.

use vstd::prelude::*;
use crate::db_errors::DbError;
use crate::db_errors::DriverError;
use crate::db_models::NewItem;

verus! {

/// The configuration of the connection provider. Where the connection string
/// comes from is the caller's business; here it is either present or absent.
#[derive(Debug, Clone, PartialEq, Eq)]
pub struct DbConfig {
    /// The connection string (`DATABASE_URL`), if one was configured.
    pub database_url: Option<String>,
}

/// What `establish_connection` returns once the attempt against `address` has
/// ended: the session, or the failure that names the address.
pub open spec fn spec_connection_result<S>(address: String, attempt: Option<S>) -> Result<S, DbError> {
    match attempt {
        Some(session) => Ok(session),
        None => Err(DbError::ConnectionError { address }),
    }
}

/// What `persist_item` returns for each outcome of the insert statement.
pub open spec fn spec_insert_result(outcome: Result<usize, DriverError>) -> Result<(), DbError> {
    match outcome {
        Ok(_) => Ok(()),
        Err(cause) => Err(DbError::PersistenceError(cause)),
    }
}

/// What `get_last_id` returns for each outcome of the query: no row is a
/// failure of its own kind, never an id.
pub open spec fn spec_last_id_result(outcome: Result<i64, DriverError>) -> Result<i64, DbError> {
    match outcome {
        Ok(id) => Ok(id),
        Err(DriverError::NotFound) => Err(DbError::NotFoundError),
        Err(cause) => Err(DbError::PersistenceError(cause)),
    }
}

/// Settles a connection attempt that was made against `address`: `attempt` is
/// the session if one was opened.
#[verifier::when_used_as_spec(spec_connection_result)]
pub fn connection_result<S>(address: String, attempt: Option<S>) -> (r: Result<S, DbError>)
    ensures
        r == spec_connection_result(address, attempt),
{
    match attempt {
        Some(session) => Ok(session),
        None => Err(DbError::ConnectionError { address }),
    }
}

/// Settles an insert from what the driver answered: the number of rows written,
/// or its failure.
#[verifier::when_used_as_spec(spec_insert_result)]
pub fn insert_result(outcome: Result<usize, DriverError>) -> (r: Result<(), DbError>)
    ensures
        r == spec_insert_result(outcome),
{
    match outcome {
        Ok(_) => Ok(()),
        Err(cause) => Err(DbError::PersistenceError(cause)),
    }
}

/// Settles a lookup of the largest id from what the driver answered: the first
/// id in descending order, or its failure.
#[verifier::when_used_as_spec(spec_last_id_result)]
pub fn last_id_result(outcome: Result<i64, DriverError>) -> (r: Result<i64, DbError>)
    ensures
        r == spec_last_id_result(outcome),
{
    match outcome {
        Ok(id) => Ok(id),
        Err(DriverError::NotFound) => Err(DbError::NotFoundError),
        Err(cause) => Err(DbError::PersistenceError(cause)),
    }
}

/// A failed insert is never swallowed and never reported as anything but a
/// `PersistenceError` that wraps what the driver said, a violated uniqueness
/// constraint included; an insert that the driver accepted is a success.
pub proof fn lemma_insert_failure_is_persistence_error(outcome: Result<usize, DriverError>)
    ensures
        insert_result(outcome) is Ok <==> outcome is Ok,
        outcome matches Err(cause) ==> insert_result(outcome) == Err::<(), DbError>(
            DbError::PersistenceError(cause),
        ),
{
}

/// A lookup that found no row is reported as `NotFoundError` and in no other
/// way: an id comes back only where the query produced that very id, and a
/// `PersistenceError` only for a driver failure other than "no row".
pub proof fn lemma_no_row_is_not_found(outcome: Result<i64, DriverError>)
    ensures
        last_id_result(outcome) == Err::<i64, DbError>(DbError::NotFoundError)
            <==> outcome == Err::<i64, DriverError>(DriverError::NotFound),
        forall|id: i64| last_id_result(outcome) == Ok::<i64, DbError>(id)
            <==> outcome == Ok::<i64, DriverError>(id),
        forall|cause: DriverError| last_id_result(outcome) == Err::<i64, DbError>(
            DbError::PersistenceError(cause),
        ) <==> outcome == Err::<i64, DriverError>(cause) && cause != DriverError::NotFound,
{
}

/// The current local wall-clock time: `chrono::Local::now`, turned into a
/// `NaiveDateTime` by `DateTime::naive_local`. Nothing is claimed of the value,
/// which depends on the machine's clock and time zone. It is local time, not
/// UTC: instants written under different time zones do not compare. chrono
/// panics where the clock reads a time before 1970 or beyond the dates it can
/// represent.
#[verifier::external_body]
fn local_now() -> chrono::NaiveDateTime {
    chrono::Local::now().naive_local()
}

/// Opens a session against the configured connection string, in one attempt.
///
/// Without a connection string this fails with `ConfigurationError`, and
/// nothing is attempted. With one, `connect` is called once with it: the
/// session it opens is returned, and where it opens none the failure is a
/// `ConnectionError` that carries the address. `connect` has to accept the
/// configured address.
pub fn establish_connection<S, F>(config: &DbConfig, connect: F) -> (r: Result<S, DbError>)
    where F: FnOnce(&str) -> Option<S>
    requires
        config.database_url matches Some(address) ==> forall|target: &str|
            target@ == address@ ==> #[trigger] call_requires(connect, (target,)),
    ensures
        config.database_url is None <==> r == Err::<S, DbError>(DbError::ConfigurationError),
        config.database_url matches Some(address) ==> exists|target: &str, attempt: Option<S>|
            target@ == address@ && #[trigger] call_ensures(connect, (target,), attempt)
                && r == connection_result(address, attempt),
        r matches Err(failure) ==> failure is ConfigurationError || failure is ConnectionError,
{
    match &config.database_url {
        None => Err(DbError::ConfigurationError),
        Some(address) => {
            let attempt = connect(address.as_str());
            connection_result(address.clone(), attempt)
        },
    }
}

/// Inserts one item, stamped with the current local time.
///
/// The time is read once; the row that `insert` receives carries `id`, `event`
/// and that one instant as both its creation and its modification time.
/// `insert` is called once, and its outcome decides: a success whatever the
/// number of rows it reports, a `PersistenceError` that wraps the driver's
/// failure otherwise. `insert` has to accept every row of that shape.
pub fn persist_item<F>(insert: F, id: &i64, event: &str) -> (r: Result<(), DbError>)
    where F: FnOnce(NewItem<'_>) -> Result<usize, DriverError>
    requires
        forall|row: NewItem<'_>| row.is_stamped(*id, event) ==> #[trigger] call_requires(insert, (row,)),
    ensures
        exists|row: NewItem<'_>, outcome: Result<usize, DriverError>|
            row.is_stamped(*id, event) && #[trigger] call_ensures(insert, (row,), outcome)
                && r == insert_result(outcome),
        r matches Err(failure) ==> failure is PersistenceError,
{
    let now = local_now();
    let new_item = NewItem::stamped(id, event, &now);
    let outcome = insert(new_item);
    insert_result(outcome)
}

/// Looks up the largest id in the table.
///
/// `select_last` runs the query (the ids in descending order, the first of
/// them) and is called once. The id it found is returned as it is, zero and
/// negative ids included; no row is a `NotFoundError`, and any other failure of
/// the driver a `PersistenceError` that wraps it.
pub fn get_last_id<F>(select_last: F) -> (r: Result<i64, DbError>)
    where F: FnOnce() -> Result<i64, DriverError>
    requires
        call_requires(select_last, ()),
    ensures
        exists|outcome: Result<i64, DriverError>|
            call_ensures(select_last, (), outcome) && r == last_id_result(outcome),
        r matches Err(failure) ==> failure is NotFoundError || failure is PersistenceError,
{
    let outcome = select_last();
    last_id_result(outcome)
}

} // verus!
