use api_server::domain::{MailAddress, User, UserId, UserName, UserNameError, UserUpdateCommand};
use api_server::repository::{UserDomainToDtoConversionError, UserRepositoryError};
use api_server::service::{duplicate_found, UserServiceError};
use api_server::transaction::DatabaseError;
use api_server::use_case::{
    apply_update, found_target, refuse_if_taken, user_response, UserUsecaseError,
};

fn alice() -> User {
    User::new(
        UserId::new(11).unwrap(),
        UserName::new("alice_w".to_string()).unwrap(),
        MailAddress::new("a@example.com".to_string()).unwrap(),
    )
}

fn db_error() -> UserRepositoryError {
    UserRepositoryError::DatabaseError(DatabaseError::SqlxError(sqlx::Error::RowNotFound))
}

#[test]
fn refuse_if_taken_passes_a_new_address() {
    let u = refuse_if_taken(Ok(false), alice()).unwrap();
    assert_eq!(u.id.get(), 11);
    assert_eq!(u.name.get(), "alice_w");
    assert_eq!(u.mail_address.get(), "a@example.com");
}

#[test]
fn refuse_if_taken_refuses_a_stored_address() {
    match refuse_if_taken(Ok(true), alice()) {
        Err(UserUsecaseError::UserAlreadyExistsError(n)) => assert_eq!(n.get(), "alice_w"),
        other => panic!("unexpected {:?}", other.map(|u| u.id)),
    }
}

#[test]
fn refuse_if_taken_passes_the_check_error_on() {
    let checked = Err(UserServiceError::UserRepositoryError(db_error()));
    assert!(matches!(
        refuse_if_taken(checked, alice()),
        Err(UserUsecaseError::UserServiceError(UserServiceError::UserRepositoryError(
            UserRepositoryError::DatabaseError(_)
        )))
    ));
}

#[test]
fn duplicate_found_answers() {
    assert!(!duplicate_found(Ok(None)).unwrap());
    assert!(duplicate_found(Ok(Some(alice()))).unwrap());
    assert!(matches!(
        duplicate_found(Err(db_error())),
        Err(UserServiceError::UserRepositoryError(UserRepositoryError::DatabaseError(_)))
    ));
}

#[test]
fn found_target_cases() {
    assert_eq!(found_target(Ok(Some(alice())), UserId::new(11).unwrap()).unwrap().id.get(), 11);
    match found_target(Ok(None), UserId::new(99).unwrap()) {
        Err(UserUsecaseError::UserIdNotExistsError(id)) => assert_eq!(id.get(), 99),
        _ => panic!("expected not found"),
    }
    let conv = UserRepositoryError::ConversionError(UserDomainToDtoConversionError::InvalidUserName(
        UserNameError::EmptyUserName,
    ));
    assert!(matches!(
        found_target(Err(conv), UserId::new(1).unwrap()),
        Err(UserUsecaseError::UserRepositoryError(UserRepositoryError::ConversionError(_)))
    ));
}

#[test]
fn apply_update_without_fields_keeps_user() {
    let cmd = UserUpdateCommand { name: None, mail_address: None };
    let u = apply_update(Ok(Some(alice())), UserId::new(11).unwrap(), cmd).unwrap();
    assert_eq!((u.id.get(), u.name.get(), u.mail_address.get()), (11, "alice_w", "a@example.com"));
}

#[test]
fn apply_update_name_only() {
    let cmd = UserUpdateCommand { name: Some("bob_two".to_string()), mail_address: None };
    let u = apply_update(Ok(Some(alice())), UserId::new(11).unwrap(), cmd).unwrap();
    assert_eq!((u.id.get(), u.name.get(), u.mail_address.get()), (11, "bob_two", "a@example.com"));
}

#[test]
fn apply_update_mail_only() {
    let cmd = UserUpdateCommand { name: None, mail_address: Some("z@example.com".to_string()) };
    let u = apply_update(Ok(Some(alice())), UserId::new(11).unwrap(), cmd).unwrap();
    assert_eq!((u.id.get(), u.name.get(), u.mail_address.get()), (11, "alice_w", "z@example.com"));
}

#[test]
fn apply_update_invalid_name() {
    let cmd = UserUpdateCommand { name: Some("ab".to_string()), mail_address: None };
    assert!(matches!(
        apply_update(Ok(Some(alice())), UserId::new(11).unwrap(), cmd),
        Err(UserUsecaseError::UserNameError(UserNameError::TooShort { min_length: 3 }))
    ));
}

#[test]
fn apply_update_unknown_id_is_not_found_even_with_bad_name() {
    let cmd = UserUpdateCommand { name: Some("ab".to_string()), mail_address: None };
    match apply_update(Ok(None), UserId::new(0x1234).unwrap(), cmd) {
        Err(UserUsecaseError::UserIdNotExistsError(id)) => assert_eq!(id.get(), 0x1234),
        _ => panic!("expected not found"),
    }
}

#[test]
fn apply_update_passes_lookup_error_on() {
    let cmd = UserUpdateCommand { name: Some("bob_two".to_string()), mail_address: None };
    assert!(matches!(
        apply_update(Err(db_error()), UserId::new(1).unwrap(), cmd),
        Err(UserUsecaseError::UserRepositoryError(UserRepositoryError::DatabaseError(_)))
    ));
}

#[test]
fn user_response_cases() {
    assert!(user_response(Ok(None)).unwrap().is_none());
    let d = user_response(Ok(Some(alice()))).unwrap().unwrap();
    assert_eq!((d.user_id, d.user_name.as_str(), d.mail_address.as_str()), (11, "alice_w", "a@example.com"));
    assert!(matches!(
        user_response(Err(db_error())),
        Err(UserUsecaseError::UserRepositoryError(UserRepositoryError::DatabaseError(_)))
    ));
}
