use api_server::domain::{
    MailAddress, User, UserId, UserName, UserNameError, MAX_NAME_LENGTH, MIN_NAME_LENGTH,
};
use api_server::repository::{UserDomainToDtoConversionError, UserDto};

#[test]
fn user_name_valid() {
    let n = UserName::new("valid_name".to_string()).unwrap();
    assert_eq!(n.get(), "valid_name");
    assert_eq!(n.into_inner(), "valid_name".to_string());
}

#[test]
fn user_name_too_short() {
    assert_eq!(
        UserName::new("ab".to_string()),
        Err(UserNameError::TooShort { min_length: MIN_NAME_LENGTH })
    );
}

#[test]
fn user_name_too_long() {
    assert_eq!(
        UserName::new("abcdefghijklmopqrstuvwxyz".to_string()),
        Err(UserNameError::TooLong { max_length: MAX_NAME_LENGTH })
    );
}

#[test]
fn user_name_empty() {
    assert_eq!(UserName::new(String::new()), Err(UserNameError::EmptyUserName));
}

#[test]
fn user_name_every_length() {
    for len in 0..=30usize {
        let r = UserName::new("x".repeat(len));
        match len {
            0 => assert_eq!(r, Err(UserNameError::EmptyUserName)),
            1..=2 => assert_eq!(r, Err(UserNameError::TooShort { min_length: 3 })),
            3..=20 => assert_eq!(r.unwrap().get().len(), len),
            _ => assert_eq!(r, Err(UserNameError::TooLong { max_length: 20 })),
        }
    }
}

#[test]
fn user_name_counts_bytes() {
    // two characters, six bytes
    assert!(UserName::new("あい".to_string()).is_ok());
    // seven characters, twenty-one bytes
    assert_eq!(
        UserName::new("あいうえおかき".to_string()),
        Err(UserNameError::TooLong { max_length: 20 })
    );
}

#[test]
fn mail_address_kept_as_given() {
    let m = MailAddress::new("hoge@example.com".to_string()).unwrap();
    assert_eq!(m.get(), "hoge@example.com");
    assert_eq!(m, MailAddress::new("hoge@example.com".to_string()).unwrap());
    assert_eq!(m.into_inner(), "hoge@example.com".to_string());
}

#[test]
fn user_id_kept_as_given() {
    let v = 0xa1a2a3a4b1b2c1c2d1d2d3d4d5d6d7d8u128;
    assert_eq!(UserId::new(v).unwrap().get(), v);
}

#[test]
fn user_changes_name_and_mail_only() {
    let mut u = User::new(
        UserId::new(7).unwrap(),
        UserName::new("alice_w".to_string()).unwrap(),
        MailAddress::new("a@example.com".to_string()).unwrap(),
    );
    u.change_name(UserName::new("bob_two".to_string()).unwrap());
    assert_eq!(u.id.get(), 7);
    assert_eq!(u.name.get(), "bob_two");
    assert_eq!(u.mail_address.get(), "a@example.com");
    u.change_mail_address(MailAddress::new("b@example.com".to_string()).unwrap());
    assert_eq!(u.id.get(), 7);
    assert_eq!(u.name.get(), "bob_two");
    assert_eq!(u.mail_address.get(), "b@example.com");
}

#[test]
fn row_round_trip() {
    let u = User::new(
        UserId::new(42).unwrap(),
        UserName::new("carol".to_string()).unwrap(),
        MailAddress::new("c@example.com".to_string()).unwrap(),
    );
    let d = UserDto::try_from_user(u).unwrap();
    assert_eq!(d.user_id, 42);
    assert_eq!(d.user_name, "carol");
    assert_eq!(d.mail_address, "c@example.com");
    let back = d.try_into_user().unwrap();
    assert_eq!(back.id.get(), 42);
    assert_eq!(back.name.get(), "carol");
    assert_eq!(back.mail_address.get(), "c@example.com");
}

#[test]
fn row_with_invalid_name_is_a_conversion_error() {
    let d = UserDto {
        user_id: 1,
        user_name: "ab".to_string(),
        mail_address: "x@example.com".to_string(),
    };
    assert!(matches!(
        d.try_into_user(),
        Err(UserDomainToDtoConversionError::InvalidUserName(UserNameError::TooShort {
            min_length: 3
        }))
    ));
}

#[test]
fn test_username_new() {
    let cases: Vec<(&str, Result<&str, UserNameError>)> = vec![
        ("valid_name", Ok("valid_name")),
        ("ab", Err(UserNameError::TooShort { min_length: MIN_NAME_LENGTH })),
        ("abcdefghijklmopqrstuvwxyz", Err(UserNameError::TooLong { max_length: MAX_NAME_LENGTH })),
    ];
    for (name, expected) in cases {
        let got = UserName::new(name.to_string());
        match expected {
            Ok(s) => assert_eq!(got.unwrap().get(), s),
            Err(e) => assert_eq!(got, Err(e)),
        }
    }
}
