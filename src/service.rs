//! Checks that span more than one user.

use vstd::prelude::*;

use crate::domain::{valid_name, User};
use crate::repository::{any_row, holds_mail, UserRepository, UserRepositoryError, UserRow};
use crate::transaction::{TransactionManager, TxPhase};

verus! {

/// Uniqueness of mail addresses among stored users.
pub struct UserService<TM, Repo> {
    _marker: core::marker::PhantomData<TM>,
    user_repository: Repo,
}

#[derive(Debug)]
pub enum UserServiceError {
    UserRepositoryError(UserRepositoryError),
}

impl<TM, Repo> UserService<TM, Repo> {
    pub fn new(user_repository: Repo) -> (r: Self)
        ensures
            r.user_repository() == user_repository,
    {
        UserService { _marker: core::marker::PhantomData, user_repository }
    }

    /// The repository the checks read through.
    pub closed spec fn user_repository(&self) -> Repo {
        self.user_repository
    }
}

/// The answer to the uniqueness question, from what the lookup by mail
/// address returned: whether it found a user, or its error unchanged.
pub fn duplicate_found(found: Result<Option<User>, UserRepositoryError>) -> (r: Result<
    bool,
    UserServiceError,
>)
    ensures
        match found {
            Ok(o) => r == Ok::<bool, UserServiceError>(o is Some),
            Err(e) => r == Err::<bool, UserServiceError>(UserServiceError::UserRepositoryError(e)),
        },
{
    match found {
        Ok(duplicated_user) => Ok(duplicated_user.is_some()),
        Err(e) => Err(UserServiceError::UserRepositoryError(e)),
    }
}

impl<TM: TransactionManager, Repo: UserRepository<TM>> UserService<TM, Repo> {
    /// Whether a stored user already has the mail address of `user`.
    pub fn already_exists(&self, tx: &mut TM::Transaction, user: &User) -> (r: Result<
        bool,
        UserServiceError,
    >)
        requires
            TM::phase(old(tx)) == TxPhase::Open,
        ensures
            TM::phase(final(tx)) == TxPhase::Open,
            Repo::table(final(tx)) == Repo::table(old(tx)),
            match r {
                Ok(b) => b == holds_mail(Repo::table(old(tx)), user.mail_address@),
                Err(UserServiceError::UserRepositoryError(e)) => e is DatabaseError || any_row(
                    Repo::table(old(tx)),
                    |row: UserRow| row.mail_address == user.mail_address@ && !valid_name(row.name),
                ),
            },
    {
        duplicate_found(self.user_repository.find_by_mail_address(tx, &user.mail_address))
    }
}

} // verus!
