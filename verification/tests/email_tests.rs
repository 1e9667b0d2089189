use fleet_core::email::Email;

#[test]
fn test_valid_email() {
    let email = Email::new("user@example.com".to_string()).unwrap();
    assert_eq!(email.value(), "user@example.com");
}

#[test]
fn test_email_case_normalization() {
    let email = Email::new("User@EXAMPLE.COM".to_string()).unwrap();
    assert_eq!(email.value(), "user@example.com");
}

#[test]
fn test_invalid_email_no_at() {
    let result = Email::new("userexample.com".to_string());
    assert!(result.is_err());
}

#[test]
fn test_invalid_email_multiple_at() {
    let result = Email::new("user@example@com".to_string());
    assert!(result.is_err());
}

#[test]
fn test_invalid_email_no_domain() {
    let result = Email::new("user@".to_string());
    assert!(result.is_err());
}

#[test]
fn test_invalid_email_no_local() {
    let result = Email::new("@example.com".to_string());
    assert!(result.is_err());
}

#[test]
fn test_invalid_email_no_dot_in_domain() {
    let result = Email::new("user@example".to_string());
    assert!(result.is_err());
}

#[test]
fn test_empty_email() {
    let result = Email::new("".to_string());
    assert!(result.is_err());
}

#[test]
fn email_test_display() {
    let email = Email::new("test@example.com".to_string()).unwrap();
    assert_eq!(format!("{}", email.value()), "test@example.com");
}

#[test]
fn email_mixed_case_example() {
    let email = Email::new("User@EXAMPLE.com".to_string()).unwrap();
    assert_eq!(email.value(), "user@example.com");
}

#[test]
fn email_padded_input_is_stored_lowercased_whole() {
    let email = Email::new("  User@EXAMPLE.com ".to_string()).unwrap();
    assert_eq!(email.value(), "  user@example.com ");
}

#[test]
fn email_local_too_long() {
    let local = "a".repeat(65);
    assert!(Email::new(format!("{}@example.com", local)).is_err());
    let local = "a".repeat(64);
    assert!(Email::new(format!("{}@example.com", local)).is_ok());
}

#[test]
fn email_invalid_characters() {
    assert!(Email::new("us er@example.com".to_string()).is_err());
    assert!(Email::new("user@exa mple.com".to_string()).is_err());
    assert!(Email::new("user+tag@example.com".to_string()).is_ok());
}
