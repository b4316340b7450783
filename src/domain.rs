//! Value objects and the `User` aggregate.

use vstd::prelude::*;
use vstd::utf8::encode_utf8;

verus! {

/// Fewest bytes a user name may have.
pub const MIN_NAME_LENGTH: usize = 3;

/// Most bytes a user name may have.
pub const MAX_NAME_LENGTH: usize = 20;

/// The length of a string in bytes of its UTF-8 encoding, as `str::len` counts it.
pub open spec fn byte_len(s: Seq<char>) -> nat {
    encode_utf8(s).len()
}

/// What is wrong with `s` as a user name, if anything.
pub open spec fn name_problem(s: Seq<char>) -> Option<UserNameError> {
    if s.len() == 0 {
        Some(UserNameError::EmptyUserName)
    } else if byte_len(s) < MIN_NAME_LENGTH {
        Some(UserNameError::TooShort { min_length: MIN_NAME_LENGTH })
    } else if byte_len(s) > MAX_NAME_LENGTH {
        Some(UserNameError::TooLong { max_length: MAX_NAME_LENGTH })
    } else {
        None
    }
}

/// `s` is acceptable as a user name.
pub open spec fn valid_name(s: Seq<char>) -> bool {
    name_problem(s) is None
}

/// Identity of a user: the 128 bits of a UUID.
#[derive(Debug, PartialEq, Eq, Clone, Copy)]
pub struct UserId(u128);

/// Why an identifier is refused. No identifier is refused today: the
/// constructor stays fallible so that a check can be added later.
#[derive(Debug, PartialEq, Eq, Clone, Copy)]
pub enum UserIdError {
    /// Reserved; never returned.
    Invalid,
}

impl View for UserId {
    type V = u128;

    closed spec fn view(&self) -> u128 {
        self.0
    }
}

impl UserId {
    pub fn new(uuid: u128) -> (r: Result<UserId, UserIdError>)
        ensures
            r matches Ok(id) && id@ == uuid,
    {
        Ok(UserId(uuid))
    }

    pub fn get(&self) -> (r: u128)
        ensures
            r == self@,
    {
        self.0
    }
}

/// A user name whose length in bytes lies in `[MIN_NAME_LENGTH, MAX_NAME_LENGTH]`.
#[derive(Debug, PartialEq)]
pub struct UserName(String);

#[derive(Debug, PartialEq, Eq, Clone, Copy)]
pub enum UserNameError {
    EmptyUserName,
    TooShort { min_length: usize },
    TooLong { max_length: usize },
}

impl View for UserName {
    type V = Seq<char>;

    closed spec fn view(&self) -> Seq<char> {
        self.0@
    }
}

impl UserName {
    #[verifier::type_invariant]
    spec fn well_formed(self) -> bool {
        valid_name(self.0@)
    }

    pub fn new(value: String) -> (r: Result<UserName, UserNameError>)
        ensures
            match name_problem(value@) {
                Some(e) => r == Err::<UserName, UserNameError>(e),
                None => r matches Ok(n) && n@ == value@,
            },
    {
        if value.as_str().is_empty() {
            return Err(UserNameError::EmptyUserName);
        }
        let len: usize = value.as_str().as_bytes().len();
        if len < MIN_NAME_LENGTH {
            return Err(UserNameError::TooShort { min_length: MIN_NAME_LENGTH });
        }
        if len > MAX_NAME_LENGTH {
            return Err(UserNameError::TooLong { max_length: MAX_NAME_LENGTH });
        }
        Ok(UserName(value))
    }

    pub fn get(&self) -> (r: &str)
        ensures
            r@ == self@,
            valid_name(r@),
    {
        proof {
            use_type_invariant(self);
        }
        self.0.as_str()
    }

    pub fn into_inner(self) -> (r: String)
        ensures
            r@ == self@,
            valid_name(r@),
    {
        proof {
            use_type_invariant(&self);
        }
        self.0
    }
}

/// A mail address. No format is checked today.
#[derive(Debug, Clone, PartialEq)]
pub struct MailAddress(String);

/// Why a mail address is refused. No address is refused today: the
/// constructor stays fallible so that a format check can be added later.
#[derive(Debug, PartialEq, Eq, Clone, Copy)]
pub enum MailAddressError {
    /// Reserved; never returned.
    Invalid,
}

impl View for MailAddress {
    type V = Seq<char>;

    closed spec fn view(&self) -> Seq<char> {
        self.0@
    }
}

impl MailAddress {
    pub fn new(mail_address: String) -> (r: Result<MailAddress, MailAddressError>)
        ensures
            r matches Ok(m) && m@ == mail_address@,
    {
        Ok(MailAddress(mail_address))
    }

    pub fn get(&self) -> (r: &str)
        ensures
            r@ == self@,
    {
        self.0.as_str()
    }

    pub fn into_inner(self) -> (r: String)
        ensures
            r@ == self@,
    {
        self.0
    }
}

/// What a `User` holds, as plain values.
pub struct UserView {
    pub id: u128,
    pub name: Seq<char>,
    pub mail_address: Seq<char>,
}

/// The aggregate root: an identity that never changes, and a name and a mail
/// address that change only through `change_name` and `change_mail_address`.
pub struct User {
    pub id: UserId,
    pub name: UserName,
    pub mail_address: MailAddress,
}

impl View for User {
    type V = UserView;

    open spec fn view(&self) -> UserView {
        UserView { id: self.id@, name: self.name@, mail_address: self.mail_address@ }
    }
}

impl User {
    pub fn new(id: UserId, name: UserName, mail_address: MailAddress) -> (r: User)
        ensures
            r@ == (UserView { id: id@, name: name@, mail_address: mail_address@ }),
    {
        User { id, name, mail_address }
    }

    pub fn change_name(&mut self, name: UserName)
        ensures
            final(self)@ == (UserView { name: name@, ..old(self)@ }),
    {
        self.name = name;
    }

    pub fn change_mail_address(&mut self, mail_address: MailAddress)
        ensures
            final(self)@ == (UserView { mail_address: mail_address@, ..old(self)@ }),
    {
        self.mail_address = mail_address;
    }
}

/// A partial update: a field left `None` keeps its stored value.
pub struct UserUpdateCommand {
    pub name: Option<String>,
    pub mail_address: Option<String>,
}

/// Why one of the value objects of a `User` could not be built.
#[derive(Debug, PartialEq, Eq, Clone, Copy)]
pub enum UserError {
    UserIdError(UserIdError),
    UserNameError(UserNameError),
    MailAddressError(MailAddressError),
}

} // verus!
