//! Where a statement is executed.

use vstd::prelude::*;

verus! {

/// Where a statement is executed.
#[derive(Debug, PartialEq, Eq)]
pub enum Executor<D, T> {
    /// On the database itself.
    Database(D),
    /// In a transaction.
    Transaction(T),
}

impl<D, T> Executor<D, T> {
    /// The statement is executed in the transaction if there is one, and on the
    /// database if there is none.
    pub open spec fn serves(self, db: D, transaction: Option<T>) -> bool {
        match transaction {
            Some(tx) => self == Executor::<D, T>::Transaction(tx),
            None => self == Executor::<D, T>::Database(db),
        }
    }
}

/// Takes the transaction if there is one, and the database if there is none.
pub fn choose_executor<D, T>(db: D, transaction: Option<T>) -> (executor: Executor<D, T>)
    ensures
        executor.serves(db, transaction),
        transaction matches Some(tx) ==> executor == Executor::<D, T>::Transaction(tx),
        transaction is None ==> executor == Executor::<D, T>::Database(db),
{
    match transaction {
        Some(tx) => Executor::Transaction(tx),
        None => Executor::Database(db),
    }
}

/// A statement is executed in a transaction if and only if one was given, and then in
/// that very one; the database itself is used only where there is none.
pub proof fn lemma_transaction_comes_first<D, T>(
    executor: Executor<D, T>,
    db: D,
    transaction: Option<T>,
)
    requires
        executor.serves(db, transaction),
    ensures
        match executor {
            Executor::Transaction(tx) => transaction == Some(tx),
            Executor::Database(d) => transaction is None && d == db,
        },
{
}

} // verus!
