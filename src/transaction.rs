//! Transaction lifecycle: acquire a handle, then close it exactly once, by a
//! commit when the work inside it succeeded and by a rollback when it failed.

use vstd::prelude::*;
use vstd::std_specs::convert::FromSpec;

verus! {

/// Declares `sqlx::Error`, which a `DatabaseError` carries through unread.
#[verifier::external_type_specification]
#[verifier::external_body]
pub struct ExSqlxError(sqlx::Error);

/// A failure of the storage engine or of the connection to it.
#[derive(Debug)]
pub enum DatabaseError {
    SqlxError(sqlx::Error),
}

/// Where a transaction handle stands in its life.
#[derive(Debug, PartialEq, Eq, Clone, Copy)]
pub enum TxPhase {
    /// Acquired and not yet closed: reads and writes may go through it.
    Open,
    /// Closed by a commit, whether or not the commit went through.
    Committed,
    /// Closed by a rollback, whether or not the rollback went through.
    RolledBack,
}

/// The phase in which `execute` leaves a transaction after work with this outcome.
pub open spec fn closing_phase<T, E>(result: Result<T, E>) -> TxPhase {
    match result {
        Ok(_) => TxPhase::Committed,
        Err(_) => TxPhase::RolledBack,
    }
}

/// What `execute` returns for work with outcome `result`, once the commit or
/// rollback that closed the transaction returned `closed`.
pub open spec fn settled<T, E, E2: From<E> + From<DatabaseError>>(
    result: Result<T, E>,
    closed: Result<(), DatabaseError>,
) -> Result<T, E2> {
    match closed {
        Err(d) => Err(<E2 as FromSpec<DatabaseError>>::from_spec(d)),
        Ok(()) => match result {
            Ok(v) => Ok(v),
            Err(e) => Err(<E2 as FromSpec<E>>::from_spec(e)),
        },
    }
}

/// The error conversions that `settled` applies are the ones `From` performs.
pub open spec fn conversions_obey_spec<E, E2: From<E> + From<DatabaseError>>() -> bool {
    &&& <E2 as FromSpec<E>>::obeys_from_spec()
    &&& <E2 as FromSpec<DatabaseError>>::obeys_from_spec()
}

/// Completes work whose outcome was `result` in a transaction that was then
/// closed with outcome `closed`: a failure to close wins, otherwise the
/// outcome of the work is returned with its error widened into `E2`.
pub fn settle<T, E, E2: From<E> + From<DatabaseError>>(
    result: Result<T, E>,
    closed: Result<(), DatabaseError>,
) -> (r: Result<T, E2>)
    requires
        conversions_obey_spec::<E, E2>(),
    ensures
        r == settled::<T, E, E2>(result, closed),
{
    match closed {
        Err(d) => Err(E2::from(d)),
        Ok(()) => match result {
            Ok(v) => Ok(v),
            Err(e) => Err(E2::from(e)),
        },
    }
}

/// Owns the lifecycle of transaction handles of one storage engine.
pub trait TransactionManager: Sized {
    type Transaction;

    /// The phase of a handle. An implementation verified against this trait
    /// defines it. The default is one unspecified phase for every handle, so
    /// an implementation that keeps it cannot meet the contracts below: it is
    /// there only so that implementations outside the verifier, of which
    /// nothing is proved, need not write a spec function.
    closed spec fn phase(tx: &Self::Transaction) -> TxPhase {
        arbitrary()
    }

    /// Acquires a new handle from the connection source.
    fn get_transaction(&self) -> (r: Result<Self::Transaction, DatabaseError>)
        ensures
            r matches Ok(tx) ==> Self::phase(&tx) == TxPhase::Open,
    ;

    /// Applies durably what was done through `tx`, and closes it.
    fn commit(tx: &mut Self::Transaction) -> (r: Result<(), DatabaseError>)
        requires
            Self::phase(old(tx)) == TxPhase::Open,
        ensures
            Self::phase(final(tx)) == TxPhase::Committed,
    ;

    /// Discards what was done through `tx`, and closes it.
    fn rollback(tx: &mut Self::Transaction) -> (r: Result<(), DatabaseError>)
        requires
            Self::phase(old(tx)) == TxPhase::Open,
        ensures
            Self::phase(final(tx)) == TxPhase::RolledBack,
    ;

    /// Closes `tx` by the outcome of the work done in it: a commit after
    /// success, a rollback after failure, exactly one of the two and exactly
    /// once. Returns that outcome, or the failure of the commit or rollback.
    fn execute<T, E, E2: From<E> + From<DatabaseError>>(
        tx: &mut Self::Transaction,
        result: Result<T, E>,
    ) -> (r: Result<T, E2>)
        requires
            Self::phase(old(tx)) == TxPhase::Open,
            conversions_obey_spec::<E, E2>(),
        ensures
            Self::phase(final(tx)) == closing_phase(result),
            exists|closed: Result<(), DatabaseError>| r == settled::<T, E, E2>(result, closed),
    {
        let closed = match &result {
            Ok(_) => Self::commit(tx),
            Err(_) => Self::rollback(tx),
        };
        settle(result, closed)
    }
}

} // verus!
