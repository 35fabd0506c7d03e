use user_api::user::User;

#[test]
fn test_validate_email() {
    let user = User::new(1, "John".to_string(), "john@email.com".to_string());
    assert_eq!(user.validate_email(), true);
}

#[test]
fn test_validate_email_invalid_by_at_sign() {
    let user = User::new(1, "John".to_string(), "john.com".to_string());
    assert_eq!(user.validate_email(), false);
}

#[test]
fn test_validate_email_invalid_by_dot() {
    let user = User::new(1, "John".to_string(), "john@com".to_string());
    assert_eq!(user.validate_email(), false);
}

#[test]
fn validate_email_empty_is_invalid() {
    let user = User::new(0, "".to_string(), "".to_string());
    assert!(!user.validate_email());
}

#[test]
fn validate_email_non_ascii_text() {
    let user = User::new(0, "Zoë".to_string(), "zoë@exämple.de".to_string());
    assert!(user.validate_email());
    let user = User::new(0, "Zoë".to_string(), "zoë＠exämple。de".to_string());
    assert!(!user.validate_email());
}

#[test]
fn users_compare_by_name_and_email_only() {
    let a = User::new(1, "John".to_string(), "john@email.com".to_string());
    let b = User::new(2, "John".to_string(), "john@email.com".to_string());
    let c = User::new(1, "John".to_string(), "other@email.com".to_string());
    assert_eq!(a, b);
    assert_ne!(a, c);
}

#[test]
fn cloned_user_keeps_every_field() {
    let a = User::new(7, "John".to_string(), "john@email.com".to_string());
    let b = a.clone();
    assert_eq!(b.id, 7);
    assert_eq!(b.name, "John");
    assert_eq!(b.email, "john@email.com");
}
