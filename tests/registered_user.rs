use entity_id::{Error, Id, RegisteredUser};

const USER_ID: &str = "018f3c1a-7b2e-7c3d-8e4f-0123456789ab";

fn user_id() -> Id<RegisteredUser> {
    Id::parse(USER_ID).unwrap()
}

#[test]
fn valid_email_builds_a_user() {
    let user = RegisteredUser::new(user_id(), "user@example.com".to_string()).unwrap();
    assert_eq!(user.email(), "user@example.com");
    assert!(user.id() == user_id());
    assert_eq!(user.id().to_text(), USER_ID);
}

#[test]
fn invalid_email_is_a_validation_failure() {
    let err = RegisteredUser::new(user_id(), "not-an-email".to_string()).err();
    assert_eq!(
        err,
        Some(Error::ValidationFailed { field: "email".to_string(), rule: "email".to_string() })
    );
}

#[test]
fn other_invalid_emails_are_refused() {
    for email in ["", "@example.com", "user@", "user@@example.com", "us er@example.com"] {
        let err = RegisteredUser::new(user_id(), email.to_string()).err();
        assert!(matches!(err, Some(Error::ValidationFailed { .. })), "{email}");
    }
}

#[test]
fn accessors_return_the_same_values_on_every_call() {
    let id = Id::<RegisteredUser>::generate();
    let text = id.to_text();
    let user = RegisteredUser::new(id, "someone@example.org".to_string()).unwrap();
    let first_id = user.id();
    let second_id = user.id();
    assert!(first_id == second_id);
    assert_eq!(first_id.to_text(), text);
    assert_eq!(user.email(), user.email());
    assert_eq!(user.email(), "someone@example.org");
}
