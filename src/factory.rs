//! Construction of new users with a freshly generated identity.

use vstd::prelude::*;

use crate::domain::{MailAddress, User, UserId, UserIdError, UserName};

verus! {

/// Builds a new `User` from a validated name and mail address.
pub trait UserFactory {
    fn create(&self, name: UserName, mail_address: MailAddress) -> (r: Result<
        User,
        UserFactoryError,
    >)
        ensures
            r matches Ok(u) ==> u.name@ == name@ && u.mail_address@ == mail_address@,
    ;
}

/// A holder of a `UserFactory`.
pub trait HasUserFactory {
    type UserFactory: UserFactory;

    fn user_repository(&self) -> &Self::UserFactory;
}

#[derive(Debug, PartialEq, Eq, Clone, Copy)]
pub enum UserFactoryError {
    UserIdError(UserIdError),
}

/// Relies on `uuid::Uuid::new_v4`, read back with `Uuid::as_u128`: a random
/// identifier whose version field (bits 76 to 79) is 4 and whose variant
/// field (bits 62 and 63) is binary 10; the other bits are random.
#[verifier::external_body]
fn random_uuid() -> (r: u128)
    ensures
        (r >> 76u128) & 0xfu128 == 4,
        (r >> 62u128) & 0x3u128 == 2,
{
    uuid::Uuid::new_v4().as_u128()
}

/// Gives each new user a random version-4 UUID.
#[derive(Debug, Default, Clone)]
pub struct DefaultUserFactory {}

impl UserFactory for DefaultUserFactory {
    fn create(&self, name: UserName, mail_address: MailAddress) -> (r: Result<
        User,
        UserFactoryError,
    >)
        ensures
            r is Ok,
    {
        match UserId::new(random_uuid()) {
            Ok(id) => Ok(User::new(id, name, mail_address)),
            Err(e) => Err(UserFactoryError::UserIdError(e)),
        }
    }
}

} // verus!
