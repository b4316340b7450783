//! Requests as they arrive from a client, run as one transaction each.

use vstd::prelude::*;

use crate::domain::UserUpdateCommand;
use crate::factory::UserFactory;
use crate::repository::{UserRepository, UserRow};
use crate::transaction::{closing_phase, settled, DatabaseError, TransactionManager, TxPhase};
use crate::use_case::{
    option_view, register_outcome, update_outcome, UserUseCaseImpl, UserUsecaseError,
};

verus! {

/// Every error a request can end with.
#[derive(Debug)]
pub enum UserControllerError {
    UserApplicationError(UserUsecaseError),
    DatabaseError(DatabaseError),
}

impl From<UserUsecaseError> for UserControllerError {
    fn from(e: UserUsecaseError) -> (r: UserControllerError) {
        UserControllerError::UserApplicationError(e)
    }
}

impl vstd::std_specs::convert::FromSpecImpl<UserUsecaseError> for UserControllerError {
    open spec fn obeys_from_spec() -> bool {
        true
    }

    open spec fn from_spec(v: UserUsecaseError) -> UserControllerError {
        UserControllerError::UserApplicationError(v)
    }
}

impl From<DatabaseError> for UserControllerError {
    fn from(e: DatabaseError) -> (r: UserControllerError) {
        UserControllerError::DatabaseError(e)
    }
}

impl vstd::std_specs::convert::FromSpecImpl<DatabaseError> for UserControllerError {
    open spec fn obeys_from_spec() -> bool {
        true
    }

    open spec fn from_spec(v: DatabaseError) -> UserControllerError {
        UserControllerError::DatabaseError(v)
    }
}

/// A request to register a user.
pub struct RegisterUserRequestJdto {
    pub name: String,
    pub email: String,
}

/// A request to change the fields of a user that it gives.
pub struct UpdateUserRequestJdto {
    pub name: Option<String>,
    pub email: Option<String>,
}

/// Registers the user that `info` describes in the open transaction `tx`,
/// then closes `tx`: by a commit when the registration succeeded, by a
/// rollback when it failed.
pub fn register_user_controller<TM, Factory, Repo>(
    tx: &mut TM::Transaction,
    usecase: &UserUseCaseImpl<TM, Factory, Repo>,
    info: RegisterUserRequestJdto,
) -> (r: Result<(), UserControllerError>) where
    TM: TransactionManager,
    Factory: UserFactory,
    Repo: UserRepository<TM>,

    requires
        TM::phase(old(tx)) == TxPhase::Open,
    ensures
        exists|u: Result<(), UserUsecaseError>, after: Map<u128, UserRow>|
            {
                &&& register_outcome(Repo::table(old(tx)), info.name@, info.email@, u, after)
                &&& TM::phase(final(tx)) == closing_phase(u)
                &&& exists|closed: Result<(), DatabaseError>|
                    r == settled::<(), UserUsecaseError, UserControllerError>(u, closed)
            },
{
    let ghost before = Repo::table(tx);
    let res = usecase.register(tx, info.name, info.email);
    let ghost after = Repo::table(tx);
    assert(register_outcome(before, info.name@, info.email@, res, after));
    TM::execute(tx, res)
}

/// Applies `info` to the user under `id` in the open transaction `tx`, then
/// closes `tx`: by a commit when the update succeeded, by a rollback when it
/// failed.
pub fn update_user_controller<TM, Factory, Repo>(
    tx: &mut TM::Transaction,
    usecase: &UserUseCaseImpl<TM, Factory, Repo>,
    id: u128,
    info: UpdateUserRequestJdto,
) -> (r: Result<(), UserControllerError>) where
    TM: TransactionManager,
    Factory: UserFactory,
    Repo: UserRepository<TM>,

    requires
        TM::phase(old(tx)) == TxPhase::Open,
    ensures
        exists|u: Result<(), UserUsecaseError>, after: Map<u128, UserRow>|
            {
                &&& TM::phase(final(tx)) == closing_phase(u)
                &&& update_outcome(
                    Repo::table(old(tx)),
                    id,
                    option_view(info.name),
                    option_view(info.email),
                    u,
                    after,
                )
                &&& exists|closed: Result<(), DatabaseError>|
                    r == settled::<(), UserUsecaseError, UserControllerError>(u, closed)
            },
{
    let ghost before = Repo::table(tx);
    let ghost name = option_view(info.name);
    let ghost mail = option_view(info.email);
    let res = usecase.update(
        tx,
        id,
        UserUpdateCommand { name: info.name, mail_address: info.email },
    );
    let ghost after = Repo::table(tx);
    assert(update_outcome(before, id, name, mail, res, after));
    TM::execute(tx, res)
}

} // verus!
