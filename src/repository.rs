//! Storage of users, always reached through an open transaction.

use vstd::prelude::*;

use crate::domain::{
    name_problem, valid_name, MailAddress, MailAddressError, User, UserId, UserIdError, UserName,
    UserNameError, UserView,
};
use crate::transaction::{DatabaseError, TransactionManager, TxPhase};

verus! {

/// A stored row of the `users` table, keyed by the user's identifier.
pub struct UserRow {
    pub name: Seq<char>,
    pub mail_address: Seq<char>,
}

/// The row that stores `u`.
pub open spec fn row_of(u: UserView) -> UserRow {
    UserRow { name: u.name, mail_address: u.mail_address }
}

/// The user that the row under `id` describes.
pub open spec fn user_of(id: u128, row: UserRow) -> UserView {
    UserView { id, name: row.name, mail_address: row.mail_address }
}

/// Some row of `table` satisfies `pick`.
pub open spec fn any_row(table: Map<u128, UserRow>, pick: spec_fn(UserRow) -> bool) -> bool {
    exists|id: u128| #[trigger] table.contains_key(id) && pick(table[id])
}

/// Some row of `table` has the mail address `mail`.
pub open spec fn holds_mail(table: Map<u128, UserRow>, mail: Seq<char>) -> bool {
    any_row(table, |row: UserRow| row.mail_address == mail)
}

/// `r` is a correct answer to a lookup of the row under `id`.
pub open spec fn found_by_id(
    table: Map<u128, UserRow>,
    id: u128,
    r: Result<Option<User>, UserRepositoryError>,
) -> bool {
    match r {
        Ok(None) => !table.contains_key(id),
        Ok(Some(u)) => table.contains_key(id) && u@ == user_of(id, table[id]),
        Err(UserRepositoryError::ConversionError(_)) => table.contains_key(id) && !valid_name(
            table[id].name,
        ),
        Err(UserRepositoryError::DatabaseError(_)) => true,
    }
}

/// `r` is a correct answer to a lookup of one row that satisfies `pick`.
pub open spec fn found_where(
    table: Map<u128, UserRow>,
    pick: spec_fn(UserRow) -> bool,
    r: Result<Option<User>, UserRepositoryError>,
) -> bool {
    match r {
        Ok(None) => !any_row(table, pick),
        Ok(Some(u)) => table.contains_key(u@.id) && pick(table[u@.id]) && u@ == user_of(
            u@.id,
            table[u@.id],
        ),
        Err(UserRepositoryError::ConversionError(_)) => any_row(
            table,
            |row: UserRow| pick(row) && !valid_name(row.name),
        ),
        Err(UserRepositoryError::DatabaseError(_)) => true,
    }
}

/// Persists users. Every operation runs inside the open transaction `tx`
/// that the caller supplies; `table(tx)` is what that transaction sees.
///
/// The contracts assume that a transaction sees only its own writes on top
/// of the rows committed when it began (snapshot isolation or stricter). At
/// a weaker level, commits of concurrent transactions may appear between two
/// operations, and a lookup need not leave `table(tx)` unchanged; that is
/// also the window in which two registrations of one mail address can both
/// pass the uniqueness check.
pub trait UserRepository<TM: TransactionManager> {
    /// The rows visible through `tx`. An implementation verified against
    /// this trait defines it. The default is one unspecified table for every
    /// transaction, so an implementation that keeps it cannot meet the
    /// contracts below: it is there only so that implementations outside the
    /// verifier, of which nothing is proved, need not write a spec function.
    closed spec fn table(tx: &TM::Transaction) -> Map<u128, UserRow> {
        arbitrary()
    }

    fn find_by_user_id(&self, tx: &mut TM::Transaction, user_id: &UserId) -> (r: Result<
        Option<User>,
        UserRepositoryError,
    >)
        requires
            TM::phase(old(tx)) == TxPhase::Open,
        ensures
            TM::phase(final(tx)) == TxPhase::Open,
            Self::table(final(tx)) == Self::table(old(tx)),
            found_by_id(Self::table(old(tx)), user_id@, r),
    ;

    fn find_by_user_name(&self, tx: &mut TM::Transaction, user_name: &UserName) -> (r: Result<
        Option<User>,
        UserRepositoryError,
    >)
        requires
            TM::phase(old(tx)) == TxPhase::Open,
        ensures
            TM::phase(final(tx)) == TxPhase::Open,
            Self::table(final(tx)) == Self::table(old(tx)),
            found_where(Self::table(old(tx)), |row: UserRow| row.name == user_name@, r),
    ;

    fn find_by_mail_address(
        &self,
        tx: &mut TM::Transaction,
        mail_address: &MailAddress,
    ) -> (r: Result<Option<User>, UserRepositoryError>)
        requires
            TM::phase(old(tx)) == TxPhase::Open,
        ensures
            TM::phase(final(tx)) == TxPhase::Open,
            Self::table(final(tx)) == Self::table(old(tx)),
            found_where(
                Self::table(old(tx)),
                |row: UserRow| row.mail_address == mail_address@,
                r,
            ),
    ;

    /// Inserts `user`, or overwrites the row that has its identifier.
    fn save(&self, tx: &mut TM::Transaction, user: User) -> (r: Result<(), UserRepositoryError>)
        requires
            TM::phase(old(tx)) == TxPhase::Open,
        ensures
            TM::phase(final(tx)) == TxPhase::Open,
            r is Ok ==> Self::table(final(tx)) == Self::table(old(tx)).insert(
                user@.id,
                row_of(user@),
            ),
            r is Err ==> Self::table(final(tx)) == Self::table(old(tx)),
            r matches Err(e) ==> e is DatabaseError,
    ;

    /// Removes the row that has the identifier of `user`.
    fn delete(&self, tx: &mut TM::Transaction, user: User) -> (r: Result<(), UserRepositoryError>)
        requires
            TM::phase(old(tx)) == TxPhase::Open,
        ensures
            TM::phase(final(tx)) == TxPhase::Open,
            r is Ok ==> Self::table(final(tx)) == Self::table(old(tx)).remove(user@.id),
            r is Err ==> Self::table(final(tx)) == Self::table(old(tx)),
            r matches Err(e) ==> e is DatabaseError,
    ;
}

#[derive(Debug)]
pub enum UserRepositoryError {
    DatabaseError(DatabaseError),
    ConversionError(UserDomainToDtoConversionError),
}

/// A stored row that does not make a valid `User`: the storage and the
/// domain model have drifted apart.
#[derive(Debug, PartialEq, Eq, Clone, Copy)]
pub enum UserDomainToDtoConversionError {
    InvalidUserId(UserIdError),
    InvalidUserName(UserNameError),
    InvalidMailAddress(MailAddressError),
}

/// A row of the `users` table as plain values.
pub struct UserDto {
    pub user_id: u128,
    pub user_name: String,
    pub mail_address: String,
}

impl UserDto {
    /// The row that stores `value`.
    pub fn try_from_user(value: User) -> (r: Result<UserDto, UserDomainToDtoConversionError>)
        ensures
            r matches Ok(d) && d.user_id == value@.id && d.user_name@ == value@.name
                && d.mail_address@ == value@.mail_address,
    {
        Ok(UserDto {
            user_id: value.id.get(),
            user_name: value.name.into_inner(),
            mail_address: value.mail_address.into_inner(),
        })
    }

    /// The user this row describes; fails exactly when its name is invalid.
    pub fn try_into_user(self) -> (r: Result<User, UserDomainToDtoConversionError>)
        ensures
            match name_problem(self.user_name@) {
                Some(e) => r == Err::<User, UserDomainToDtoConversionError>(
                    UserDomainToDtoConversionError::InvalidUserName(e),
                ),
                None => r matches Ok(u) && u@ == (UserView {
                    id: self.user_id,
                    name: self.user_name@,
                    mail_address: self.mail_address@,
                }),
            },
    {
        let id = match UserId::new(self.user_id) {
            Ok(id) => id,
            Err(e) => return Err(UserDomainToDtoConversionError::InvalidUserId(e)),
        };
        let name = match UserName::new(self.user_name) {
            Ok(n) => n,
            Err(e) => return Err(UserDomainToDtoConversionError::InvalidUserName(e)),
        };
        let mail_address = match MailAddress::new(self.mail_address) {
            Ok(m) => m,
            Err(e) => return Err(UserDomainToDtoConversionError::InvalidMailAddress(e)),
        };
        Ok(User::new(id, name, mail_address))
    }
}

} // verus!
