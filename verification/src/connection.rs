//! Connections to a database, and the transactions on them.

use vstd::prelude::*;

use crate::convert::Convert;
use crate::errors::Error;
use crate::reply::{database_reply, tells_database_outcome, Reply, Step};
use crate::representations::{DBConnectOptions, DatabaseConfiguration, DatabaseDriver};

verus! {

/// Connects to a database.
pub fn rorm_db_connect<D>(options: &DBConnectOptions) -> (step: Step<
    DatabaseConfiguration,
    Option<D>,
>)
    ensures
        match options.fault() {
            Some(error) => step.refuses_with(error),
            None => {
                &&& step matches Step::Execute(configuration)
                &&& options.becomes(configuration)
                &&& match configuration.driver {
                    DatabaseDriver::SQLite { .. } => options.backend is SQLite,
                    DatabaseDriver::MySQL(server) => options.backend is MySQL && server.port
                        == options.port,
                    DatabaseDriver::Postgres(server) => options.backend is Postgres && server.port
                        == options.port,
                }
                &&& configuration.min_connections == options.min_connections
                &&& configuration.max_connections == options.max_connections
            },
        },
{
    match options.convert() {
        Ok(configuration) => Step::Execute(configuration),
        Err(error) => Step::refuse(error),
    }
}

/// Tells the outcome of [`rorm_db_connect`]; a failure is told as an error of the
/// runtime.
pub fn connect_reply<D>(outcome: Result<D, String>) -> (reply: Reply<Option<D>>)
    ensures
        match outcome {
            Ok(db) => reply.succeeds_with(Some(db)),
            Err(message) => reply.fails_with(Error::RuntimeError(message)),
        },
{
    match outcome {
        Ok(db) => Reply::success(Some(db)),
        Err(message) => Reply::failure(Error::RuntimeError(message)),
    }
}

/// Tells the outcome of starting a transaction.
pub fn rorm_db_start_transaction<T>(outcome: Result<T, String>) -> (reply: Reply<Option<T>>)
    ensures
        match outcome {
            Ok(transaction) => reply.succeeds_with(Some(transaction)),
            Err(message) => reply.fails_with(Error::DatabaseError(message)),
        },
{
    match outcome {
        Ok(transaction) => Reply::success(Some(transaction)),
        Err(message) => Reply::failure(Error::DatabaseError(message)),
    }
}

/// The end of a transaction.
#[derive(Debug, PartialEq, Eq)]
pub enum TransactionEnd<T> {
    /// All operations of the transaction are applied to the database.
    Commit(T),
    /// All operations of the transaction are discarded.
    Rollback(T),
}

/// Ends a transaction so that its operations are applied.
pub fn rorm_transaction_commit<T>(transaction: T) -> (end: TransactionEnd<T>)
    ensures
        end == TransactionEnd::Commit(transaction),
{
    TransactionEnd::Commit(transaction)
}

/// Ends a transaction so that its operations are discarded.
pub fn rorm_transaction_rollback<T>(transaction: T) -> (end: TransactionEnd<T>)
    ensures
        end == TransactionEnd::Rollback(transaction),
{
    TransactionEnd::Rollback(transaction)
}

/// Tells the outcome of ending a transaction.
pub fn transaction_end_reply(outcome: Result<(), String>) -> (reply: Reply<()>)
    ensures
        tells_database_outcome(reply, outcome),
{
    database_reply(outcome)
}

} // verus!
