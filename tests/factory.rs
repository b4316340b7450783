use api_server::domain::{MailAddress, UserName};
use api_server::factory::{DefaultUserFactory, UserFactory};

#[test]
fn factory_gives_fresh_version4_ids() {
    let f = DefaultUserFactory::default();
    let a = f
        .create(
            UserName::new("alice_w".to_string()).unwrap(),
            MailAddress::new("a@example.com".to_string()).unwrap(),
        )
        .unwrap();
    let b = f
        .create(
            UserName::new("alice_w".to_string()).unwrap(),
            MailAddress::new("a@example.com".to_string()).unwrap(),
        )
        .unwrap();
    assert_ne!(a.id.get(), b.id.get());
    assert_eq!((a.id.get() >> 76) & 0xf, 4);
    assert_eq!(a.name.get(), "alice_w");
    assert_eq!(a.mail_address.get(), "a@example.com");
}
