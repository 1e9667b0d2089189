use fleet_core::license_plate::{LicensePlate, LicensePlateValidationError};

#[test]
fn test_valid_standard_format() {
    let plate = LicensePlate::new("123ABC45").unwrap();
    assert_eq!(plate.value(), "123ABC45");
    assert!(LicensePlate::validate("123ABC45").is_ok());
}

#[test]
fn test_valid_alternative_format() {
    let plate = LicensePlate::new("A123BCD").unwrap();
    assert_eq!(plate.value(), "A123BCD");
    assert!(LicensePlate::validate("A123BCD").is_ok());
}

#[test]
fn license_plate_test_lowercase_conversion() {
    let plate = LicensePlate::new("123abc45").unwrap();
    assert_eq!(plate.value(), "123ABC45");
}

#[test]
fn test_invalid_format() {
    assert!(LicensePlate::validate("123456").is_err());
    assert!(LicensePlate::validate("ABCDEF").is_err());
    assert!(LicensePlate::validate("12ABC45").is_err());
}

#[test]
fn test_empty_license_plate() {
    assert!(matches!(
        LicensePlate::validate(""),
        Err(LicensePlateValidationError::Empty)
    ));
}

#[test]
fn test_too_long() {
    assert!(matches!(
        LicensePlate::validate("123ABC456"),
        Err(LicensePlateValidationError::TooLong)
    ));
}

#[test]
fn license_plate_test_display() {
    let plate = LicensePlate::new("123ABC45").unwrap();
    assert_eq!(format!("{}", plate.value()), "123ABC45");
}

#[test]
fn license_plate_lowercase_validates() {
    assert!(LicensePlate::validate("123abc45").is_ok());
    assert!(matches!(
        LicensePlate::validate("123456"),
        Err(LicensePlateValidationError::InvalidFormat(_))
    ));
}

#[test]
fn license_plate_into_string() {
    let plate = LicensePlate::new(" a123bcd ").unwrap();
    assert_eq!(plate.into_string(), "A123BCD");
}
