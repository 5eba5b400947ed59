//! The main point of interaction with storage: a connection, leased from a
//! pool or opened as a transaction.

use vstd::prelude::*;

verus! {

/// What a storage processor holds: a connection leased from a pool, or a
/// transaction begun on such a connection.
pub enum ConnectionHolder<C, T> {
    Pooled(C),
    Transaction(T),
}

/// Holds a connection to the database and knows whether it is within a
/// transaction: it is exactly when what it holds is a transaction. `C` is
/// the type of a pooled connection, `T` that of a transaction.
pub struct StorageProcessor<C, T> {
    conn: ConnectionHolder<C, T>,
}

impl<C, T> StorageProcessor<C, T> {
    /// What this processor holds.
    pub closed spec fn holder_spec(&self) -> ConnectionHolder<C, T> {
        self.conn
    }

    /// Whether this processor is within a database transaction.
    pub open spec fn in_transaction_spec(&self) -> bool {
        self.holder_spec() is Transaction
    }

    /// A processor over a connection leased from a pool. The connection goes
    /// back to the pool when the processor is dropped.
    pub fn from_pool(conn: C) -> (processor: Self)
        ensures
            processor.holder_spec() == ConnectionHolder::<C, T>::Pooled(conn),
            !processor.in_transaction_spec(),
    {
        StorageProcessor { conn: ConnectionHolder::Pooled(conn) }
    }

    /// A processor over a transaction that has been begun.
    pub fn from_transaction(conn: T) -> (processor: Self)
        ensures
            processor.holder_spec() == ConnectionHolder::<C, T>::Transaction(conn),
            processor.in_transaction_spec(),
    {
        StorageProcessor { conn: ConnectionHolder::Transaction(conn) }
    }

    /// Checks if the processor is currently within a database transaction.
    pub fn in_transaction(&self) -> (inside: bool)
        ensures
            inside == self.in_transaction_spec(),
    {
        match &self.conn {
            ConnectionHolder::Transaction(_) => true,
            ConnectionHolder::Pooled(_) => false,
        }
    }

    /// What this processor holds.
    pub fn conn(&self) -> (holder: &ConnectionHolder<C, T>)
        ensures
            *holder == self.holder_spec(),
    {
        &self.conn
    }

    /// The pooled connection, to run statements on, if this processor holds
    /// one. Whatever is done to the connection, the processor stays outside
    /// a transaction.
    pub fn pooled_mut(&mut self) -> (conn: Option<&mut C>)
        ensures
            conn is Some <==> old(self).holder_spec() is Pooled,
            conn is Some ==> *conn->0 == old(self).holder_spec()->Pooled_0,
            conn is Some ==> final(self).holder_spec() == ConnectionHolder::<C, T>::Pooled(
                *final(conn->0),
            ),
            conn is None ==> *final(self) == *old(self),
    {
        match &mut self.conn {
            ConnectionHolder::Pooled(conn) => Some(conn),
            ConnectionHolder::Transaction(_) => None,
        }
    }

    /// The transaction, to run statements on, if this processor holds one.
    /// Whatever is done to the transaction, the processor stays within it.
    pub fn transaction_mut(&mut self) -> (conn: Option<&mut T>)
        ensures
            conn is Some <==> old(self).holder_spec() is Transaction,
            conn is Some ==> *conn->0 == old(self).holder_spec()->Transaction_0,
            conn is Some ==> final(self).holder_spec() == ConnectionHolder::<C, T>::Transaction(
                *final(conn->0),
            ),
            conn is None ==> *final(self) == *old(self),
    {
        match &mut self.conn {
            ConnectionHolder::Transaction(conn) => Some(conn),
            ConnectionHolder::Pooled(_) => None,
        }
    }

    /// Gives up the processor and hands out its transaction, to be
    /// committed. Only a processor that is within a transaction can be
    /// committed.
    pub fn commit(self) -> (transaction: T)
        requires
            self.in_transaction_spec(),
        ensures
            self.holder_spec() == ConnectionHolder::<C, T>::Transaction(transaction),
    {
        match self.conn {
            ConnectionHolder::Transaction(transaction) => transaction,
            ConnectionHolder::Pooled(_) => {
                proof {
                    assert(false);
                }
                unreached()
            },
        }
    }
}

} // verus!
