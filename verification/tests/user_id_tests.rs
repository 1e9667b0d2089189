use fleet_core::ids::UserId;
use uuid::Uuid;

#[test]
fn test_new_user_id() {
    let uuid = Uuid::new_v4();
    let user_id = UserId::new(uuid.as_u128());
    assert_eq!(user_id.value(), uuid.as_u128());
}

#[test]
fn test_generate_user_id() {
    let user_id = UserId::generate();
    assert_ne!(user_id.value(), Uuid::nil().as_u128());
}

#[test]
fn test_from_string_valid() {
    let uuid_str = "550e8400-e29b-41d4-a716-446655440000";
    let user_id = UserId::from_string(uuid_str).unwrap();
    assert_eq!(user_id.to_text(), uuid_str);
}

#[test]
fn test_from_string_invalid() {
    let result = UserId::from_string("invalid-uuid");
    assert!(result.is_err());
}

#[test]
fn user_id_test_display() {
    let uuid = Uuid::new_v4();
    let user_id = UserId::new(uuid.as_u128());
    assert_eq!(user_id.to_text(), format!("{}", uuid));
}

#[test]
fn user_id_parse_gives_exact_value() {
    let user_id = UserId::from_string("550e8400-e29b-41d4-a716-446655440000").unwrap();
    assert_eq!(user_id.value(), 0x550e8400e29b41d4a716446655440000u128);
}
