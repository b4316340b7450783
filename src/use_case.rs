//! The use cases: register, update, get and delete a user, each inside one
//! transaction that the caller opened and will close.

use vstd::prelude::*;

use crate::domain::{
    name_problem, valid_name, MailAddress, MailAddressError, User, UserId, UserIdError, UserName, UserNameError,
    UserUpdateCommand, UserView,
};
use crate::factory::{UserFactory, UserFactoryError};
use crate::repository::{
    any_row, found_by_id, holds_mail, row_of, UserRepository, UserRepositoryError, UserRow,
};
use crate::service::{UserService, UserServiceError};
use crate::transaction::{TransactionManager, TxPhase};

verus! {

/// Every error a use case can end with.
#[derive(Debug)]
pub enum UserUsecaseError {
    UserIdError(UserIdError),
    UserNameError(UserNameError),
    MailAddressError(MailAddressError),
    UserRepositoryError(UserRepositoryError),
    UserServiceError(UserServiceError),
    UserFactoryError(UserFactoryError),
    /// A user with this mail address is already stored; carries the name
    /// that was asked for.
    UserAlreadyExistsError(UserName),
    /// No user is stored under this identifier.
    UserIdNotExistsError(UserId),
}

/// The text of an optional string.
pub open spec fn option_view(o: Option<String>) -> Option<Seq<char>> {
    match o {
        Some(s) => Some(s@),
        None => None,
    }
}

/// What is wrong with a new name, if one is given and it is invalid.
pub open spec fn new_name_problem(name: Option<Seq<char>>) -> Option<UserNameError> {
    match name {
        Some(n) => name_problem(n),
        None => None,
    }
}

/// `row` with the fields that are given replaced.
pub open spec fn updated_row(row: UserRow, name: Option<Seq<char>>, mail: Option<Seq<char>>) -> UserRow {
    UserRow {
        name: match name {
            Some(n) => n,
            None => row.name,
        },
        mail_address: match mail {
            Some(m) => m,
            None => row.mail_address,
        },
    }
}

/// `u` with the fields that are given replaced; its identity is kept.
pub open spec fn updated_user(u: UserView, name: Option<Seq<char>>, mail: Option<Seq<char>>) -> UserView {
    let row = updated_row(row_of(u), name, mail);
    UserView { id: u.id, name: row.name, mail_address: row.mail_address }
}

/// Registering `name` with `mail` in a transaction that saw `before` ended
/// with `r` and left it seeing `after`.
pub open spec fn register_outcome(
    before: Map<u128, UserRow>,
    name: Seq<char>,
    mail: Seq<char>,
    r: Result<(), UserUsecaseError>,
    after: Map<u128, UserRow>,
) -> bool {
    match name_problem(name) {
        Some(e) => r == Err::<(), UserUsecaseError>(UserUsecaseError::UserNameError(e)) && after
            == before,
        None => match r {
            Ok(()) => !holds_mail(before, mail) && exists|id: u128|
                after == #[trigger] before.insert(id, UserRow { name, mail_address: mail }),
            Err(UserUsecaseError::UserAlreadyExistsError(n)) => holds_mail(before, mail) && n@
                == name && after == before,
            Err(UserUsecaseError::UserServiceError(UserServiceError::UserRepositoryError(e))) => {
                &&& e is DatabaseError || any_row(
                    before,
                    |row: UserRow| row.mail_address == mail && !valid_name(row.name),
                )
                &&& after == before
            },
            Err(UserUsecaseError::UserRepositoryError(e)) => {
                &&& !holds_mail(before, mail)
                &&& e is DatabaseError
                &&& after == before
            },
            Err(UserUsecaseError::UserFactoryError(_)) => after == before,
            Err(_) => false,
        },
    }
}

/// Updating the user under `id` with the given fields, in a transaction that
/// saw `before`, ended with `r` and left it seeing `after`.
pub open spec fn update_outcome(
    before: Map<u128, UserRow>,
    id: u128,
    name: Option<Seq<char>>,
    mail: Option<Seq<char>>,
    r: Result<(), UserUsecaseError>,
    after: Map<u128, UserRow>,
) -> bool {
    match r {
        Ok(()) => {
            &&& before.contains_key(id)
            &&& new_name_problem(name) is None
            &&& after == before.insert(id, updated_row(before[id], name, mail))
        },
        Err(UserUsecaseError::UserIdNotExistsError(uid)) => !before.contains_key(id) && uid@ == id
            && after == before,
        Err(UserUsecaseError::UserNameError(e)) => {
            &&& before.contains_key(id)
            &&& new_name_problem(name) == Some(e)
            &&& after == before
        },
        Err(UserUsecaseError::UserRepositoryError(_)) => after == before,
        Err(_) => false,
    }
}

/// Deleting the user under `id`, in a transaction that saw `before`, ended
/// with `r` and left it seeing `after`.
pub open spec fn delete_outcome(
    before: Map<u128, UserRow>,
    id: u128,
    r: Result<(), UserUsecaseError>,
    after: Map<u128, UserRow>,
) -> bool {
    match r {
        Ok(()) => before.contains_key(id) && after == before.remove(id),
        Err(UserUsecaseError::UserIdNotExistsError(uid)) => !before.contains_key(id) && uid@ == id
            && after == before,
        Err(UserUsecaseError::UserRepositoryError(_)) => after == before,
        Err(_) => false,
    }
}

/// Registering the same name and mail address a second time, after the first
/// registration succeeded, never succeeds and changes nothing: it is refused
/// with `UserAlreadyExistsError` carrying that name, unless the uniqueness
/// check itself fails or no identity could be made.
pub proof fn lemma_register_twice_refused(
    t0: Map<u128, UserRow>,
    t1: Map<u128, UserRow>,
    t2: Map<u128, UserRow>,
    name: Seq<char>,
    mail: Seq<char>,
    r2: Result<(), UserUsecaseError>,
)
    requires
        register_outcome(t0, name, mail, Ok(()), t1),
        register_outcome(t1, name, mail, r2, t2),
    ensures
        r2 is Err,
        (r2->Err_0 matches UserUsecaseError::UserAlreadyExistsError(n) && n@ == name)
            || r2->Err_0 is UserServiceError || r2->Err_0 is UserFactoryError,
        t2 == t1,
{
    let id = choose|id: u128| t1 == #[trigger] t0.insert(id, UserRow { name, mail_address: mail });
    assert(t1.contains_key(id) && t1[id].mail_address == mail);
    assert(holds_mail(t1, mail));
}

/// An update that gives neither a name nor a mail address leaves every
/// stored row as it was, whatever it returns.
pub proof fn lemma_empty_update_keeps_rows(
    before: Map<u128, UserRow>,
    id: u128,
    r: Result<(), UserUsecaseError>,
    after: Map<u128, UserRow>,
)
    requires
        update_outcome(before, id, None, None, r, after),
    ensures
        after == before,
{
    if r is Ok {
        assert(after =~= before);
    }
}

/// A successful update that gives only a name stores that name and keeps
/// the stored mail address, so that a later lookup of the user reads back
/// the old mail address; the other rows are untouched.
pub proof fn lemma_name_update_keeps_mail(
    before: Map<u128, UserRow>,
    id: u128,
    name: Seq<char>,
    after: Map<u128, UserRow>,
)
    requires
        update_outcome(before, id, Some(name), None, Ok(()), after),
    ensures
        before.contains_key(id),
        after.contains_key(id),
        after[id].name == name,
        after[id].mail_address == before[id].mail_address,
        after.remove(id) == before.remove(id),
        forall|r: Result<Option<User>, UserRepositoryError>|
            #![trigger found_by_id(after, id, r)]
            found_by_id(after, id, r) ==> (r matches Ok(Some(u)) ==> u@.name == name
                && u@.mail_address == before[id].mail_address),
{
    assert(after.remove(id) =~= before.remove(id));
}

/// Deleting an identifier under which nothing is stored changes no row, and
/// ends with `UserIdNotExistsError` for it unless the lookup fails.
pub proof fn lemma_delete_unknown_changes_nothing(
    before: Map<u128, UserRow>,
    id: u128,
    r: Result<(), UserUsecaseError>,
    after: Map<u128, UserRow>,
)
    requires
        delete_outcome(before, id, r, after),
        !before.contains_key(id),
    ensures
        after == before,
        r is Err,
        (r->Err_0 matches UserUsecaseError::UserIdNotExistsError(uid) && uid@ == id)
            || r->Err_0 is UserRepositoryError,
{
}

/// The user to save, or the refusal, from the answer of the uniqueness check
/// on `user`'s mail address.
pub fn refuse_if_taken(checked: Result<bool, UserServiceError>, user: User) -> (r: Result<
    User,
    UserUsecaseError,
>)
    ensures
        match checked {
            Ok(false) => r matches Ok(u) && u@ == user@,
            Ok(true) => r matches Err(UserUsecaseError::UserAlreadyExistsError(n)) && n@
                == user@.name,
            Err(e) => r == Err::<User, UserUsecaseError>(UserUsecaseError::UserServiceError(e)),
        },
{
    match checked {
        Ok(false) => Ok(user),
        Ok(true) => Err(UserUsecaseError::UserAlreadyExistsError(user.name)),
        Err(e) => Err(UserUsecaseError::UserServiceError(e)),
    }
}

/// The stored user to act on, from what the lookup of `target_id` returned.
pub fn found_target(found: Result<Option<User>, UserRepositoryError>, target_id: UserId) -> (r:
    Result<User, UserUsecaseError>)
    ensures
        match found {
            Ok(Some(u)) => r matches Ok(v) && v@ == u@,
            Ok(None) => r matches Err(UserUsecaseError::UserIdNotExistsError(id)) && id@
                == target_id@,
            Err(e) => r == Err::<User, UserUsecaseError>(UserUsecaseError::UserRepositoryError(e)),
        },
{
    match found {
        Ok(Some(u)) => Ok(u),
        Ok(None) => Err(UserUsecaseError::UserIdNotExistsError(target_id)),
        Err(e) => Err(UserUsecaseError::UserRepositoryError(e)),
    }
}

/// The user to save after an update, from what the lookup of `target_id`
/// returned: the stored user with the fields of `cmd` that are given
/// replaced, or the reason there is none.
pub fn apply_update(
    found: Result<Option<User>, UserRepositoryError>,
    target_id: UserId,
    cmd: UserUpdateCommand,
) -> (r: Result<User, UserUsecaseError>)
    ensures
        match found {
            Err(e) => r == Err::<User, UserUsecaseError>(UserUsecaseError::UserRepositoryError(e)),
            Ok(None) => r matches Err(UserUsecaseError::UserIdNotExistsError(id)) && id@
                == target_id@,
            Ok(Some(u)) => match new_name_problem(option_view(cmd.name)) {
                Some(e) => r == Err::<User, UserUsecaseError>(UserUsecaseError::UserNameError(e)),
                None => r matches Ok(v) && v@ == updated_user(
                    u@,
                    option_view(cmd.name),
                    option_view(cmd.mail_address),
                ),
            },
        },
{
    let mut target_user = match found_target(found, target_id) {
        Ok(u) => u,
        Err(e) => return Err(e),
    };
    if let Some(new_user_name) = cmd.name {
        match UserName::new(new_user_name) {
            Ok(n) => target_user.change_name(n),
            Err(e) => return Err(UserUsecaseError::UserNameError(e)),
        }
    }
    if let Some(new_mail_address) = cmd.mail_address {
        match MailAddress::new(new_mail_address) {
            Ok(m) => target_user.change_mail_address(m),
            Err(e) => return Err(UserUsecaseError::MailAddressError(e)),
        }
    }
    Ok(target_user)
}

/// The answer of a lookup by identifier, as handed out of the use cases.
pub fn user_response(found: Result<Option<User>, UserRepositoryError>) -> (r: Result<
    Option<UserDto>,
    UserUsecaseError,
>)
    ensures
        match found {
            Ok(None) => r matches Ok(None),
            Ok(Some(u)) => r matches Ok(Some(d)) && d.user_id == u@.id && d.user_name@ == u@.name
                && d.mail_address@ == u@.mail_address,
            Err(e) => r == Err::<Option<UserDto>, UserUsecaseError>(
                UserUsecaseError::UserRepositoryError(e),
            ),
        },
{
    match found {
        Ok(Some(user)) => Ok(
            Some(
                UserDto {
                    user_id: user.id.get(),
                    user_name: user.name.into_inner(),
                    mail_address: user.mail_address.into_inner(),
                },
            ),
        ),
        Ok(None) => Ok(None),
        Err(e) => Err(UserUsecaseError::UserRepositoryError(e)),
    }
}

/// A user as handed out of the use cases, as plain values.
pub struct UserDto {
    pub user_id: u128,
    pub user_name: String,
    pub mail_address: String,
}

/// The use cases over a factory and a repository of one storage engine.
pub struct UserUseCaseImpl<TM, Factory, Repo> {
    user_factory: Factory,
    user_repository: Repo,
    user_service: UserService<TM, Repo>,
}

impl<TM, Factory, Repo> UserUseCaseImpl<TM, Factory, Repo> {
    pub fn new(
        user_factory: Factory,
        user_repository: Repo,
        user_service: UserService<TM, Repo>,
    ) -> (r: Self)
        ensures
            r.user_factory() == user_factory,
            r.user_repository() == user_repository,
    {
        UserUseCaseImpl { user_factory, user_repository, user_service }
    }

    pub closed spec fn user_factory(&self) -> Factory {
        self.user_factory
    }

    pub closed spec fn user_repository(&self) -> Repo {
        self.user_repository
    }
}

impl<
    TM: TransactionManager,
    Factory: UserFactory,
    Repo: UserRepository<TM>,
> UserUseCaseImpl<TM, Factory, Repo> {
    /// Registers a new user, refused when the mail address is already stored.
    pub fn register(&self, tx: &mut TM::Transaction, name: String, raw_mail_address: String) -> (r:
        Result<(), UserUsecaseError>)
        requires
            TM::phase(old(tx)) == TxPhase::Open,
        ensures
            TM::phase(final(tx)) == TxPhase::Open,
            register_outcome(
                Repo::table(old(tx)),
                name@,
                raw_mail_address@,
                r,
                Repo::table(final(tx)),
            ),
    {
        let user_name = match UserName::new(name) {
            Ok(n) => n,
            Err(e) => return Err(UserUsecaseError::UserNameError(e)),
        };
        let mail_address = match MailAddress::new(raw_mail_address) {
            Ok(m) => m,
            Err(e) => return Err(UserUsecaseError::MailAddressError(e)),
        };
        let user = match self.user_factory.create(user_name, mail_address) {
            Ok(u) => u,
            Err(e) => return Err(UserUsecaseError::UserFactoryError(e)),
        };
        let checked = self.user_service.already_exists(tx, &user);
        let user = match refuse_if_taken(checked, user) {
            Ok(u) => u,
            Err(e) => return Err(e),
        };
        let ghost id = user@.id;
        match self.user_repository.save(tx, user) {
            Ok(()) => {
                assert(Repo::table(tx) == Repo::table(old(tx)).insert(
                    id,
                    UserRow { name: name@, mail_address: raw_mail_address@ },
                ));
                Ok(())
            },
            Err(e) => Err(UserUsecaseError::UserRepositoryError(e)),
        }
    }

    /// Changes the fields of the stored user that `user_update_command`
    /// gives, and leaves the others as they were read.
    pub fn update(
        &self,
        tx: &mut TM::Transaction,
        user_id: u128,
        user_update_command: UserUpdateCommand,
    ) -> (r: Result<(), UserUsecaseError>)
        requires
            TM::phase(old(tx)) == TxPhase::Open,
        ensures
            TM::phase(final(tx)) == TxPhase::Open,
            update_outcome(
                Repo::table(old(tx)),
                user_id,
                option_view(user_update_command.name),
                option_view(user_update_command.mail_address),
                r,
                Repo::table(final(tx)),
            ),
    {
        let target_id = match UserId::new(user_id) {
            Ok(id) => id,
            Err(e) => return Err(UserUsecaseError::UserIdError(e)),
        };
        let found = self.user_repository.find_by_user_id(tx, &target_id);
        let target_user = match apply_update(found, target_id, user_update_command) {
            Ok(u) => u,
            Err(e) => return Err(e),
        };
        match self.user_repository.save(tx, target_user) {
            Ok(()) => Ok(()),
            Err(e) => Err(UserUsecaseError::UserRepositoryError(e)),
        }
    }

    /// The stored user under `user_id`, if there is one.
    pub fn get(&self, tx: &mut TM::Transaction, user_id: &u128) -> (r: Result<
        Option<UserDto>,
        UserUsecaseError,
    >)
        requires
            TM::phase(old(tx)) == TxPhase::Open,
        ensures
            TM::phase(final(tx)) == TxPhase::Open,
            Repo::table(final(tx)) == Repo::table(old(tx)),
            match r {
                Ok(None) => !Repo::table(old(tx)).contains_key(*user_id),
                Ok(Some(d)) => {
                    &&& Repo::table(old(tx)).contains_key(*user_id)
                    &&& d.user_id == *user_id
                    &&& d.user_name@ == Repo::table(old(tx))[*user_id].name
                    &&& d.mail_address@ == Repo::table(old(tx))[*user_id].mail_address
                },
                Err(e) => e is UserRepositoryError,
            },
    {
        let target_id = match UserId::new(*user_id) {
            Ok(id) => id,
            Err(e) => return Err(UserUsecaseError::UserIdError(e)),
        };
        user_response(self.user_repository.find_by_user_id(tx, &target_id))
    }

    /// Deletes the stored user under `user_id`; an unknown identifier is an
    /// error, not a success.
    pub fn delete(&self, tx: &mut TM::Transaction, user_id: u128) -> (r: Result<
        (),
        UserUsecaseError,
    >)
        requires
            TM::phase(old(tx)) == TxPhase::Open,
        ensures
            TM::phase(final(tx)) == TxPhase::Open,
            delete_outcome(Repo::table(old(tx)), user_id, r, Repo::table(final(tx))),
    {
        let target_id = match UserId::new(user_id) {
            Ok(id) => id,
            Err(e) => return Err(UserUsecaseError::UserIdError(e)),
        };
        let found = self.user_repository.find_by_user_id(tx, &target_id);
        let target_user = match found_target(found, target_id) {
            Ok(u) => u,
            Err(e) => return Err(e),
        };
        match self.user_repository.delete(tx, target_user) {
            Ok(()) => Ok(()),
            Err(e) => Err(UserUsecaseError::UserRepositoryError(e)),
        }
    }
}

} // verus!
