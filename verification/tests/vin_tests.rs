use fleet_core::vin::{VehicleVin, VehicleVinError};

#[test]
fn test_valid_vin() {
    let vin = VehicleVin::new("1HGBH41JXMN109186").unwrap();
    assert_eq!(vin.value(), "1HGBH41JXMN109186");
}

#[test]
fn vehicle_vin_test_lowercase_conversion() {
    let vin = VehicleVin::new("1hgbh41jxmn109186").unwrap();
    assert_eq!(vin.value(), "1HGBH41JXMN109186");
}

#[test]
fn test_invalid_length() {
    assert!(matches!(
        VehicleVin::new("1HGBH41JXMN10918"),
        Err(VehicleVinError::InvalidLength)
    ));
}

#[test]
fn test_invalid_characters() {
    assert!(matches!(
        VehicleVin::new("1HGBH41JXMN109I86"),
        Err(VehicleVinError::InvalidCharacters(_))
    ));
}

#[test]
fn test_empty_vin() {
    assert!(matches!(VehicleVin::new(""), Err(VehicleVinError::Empty)));
}

#[test]
fn test_vin_sections() {
    let vin = VehicleVin::new("1HGBH41JXMN109186").unwrap();
    assert_eq!(vin.wmi(), "1HG");
    assert_eq!(vin.vds(), "BH41JX");
    assert_eq!(vin.vis(), "MN109186");
    assert_eq!(vin.model_year_code(), 'M');
    assert_eq!(vin.assembly_plant_code(), 'N');
}

#[test]
fn vehicle_vin_test_display() {
    let vin = VehicleVin::new("1HGBH41JXMN109186").unwrap();
    assert_eq!(format!("{}", vin.value()), "1HGBH41JXMN109186");
}

#[test]
fn vin_wrong_check_digit() {
    assert!(matches!(
        VehicleVin::new("1HGBH41J1MN109186"),
        Err(VehicleVinError::InvalidCheckDigit(_))
    ));
}

#[test]
fn vin_check_digit_values() {
    assert_eq!(VehicleVin::char_to_value('A'), 1);
    assert_eq!(VehicleVin::char_to_value('X'), 7);
    assert_eq!(VehicleVin::char_to_value('Z'), 9);
    assert_eq!(VehicleVin::char_to_value('7'), 7);
    assert!(VehicleVin::is_valid_check_digit("1HGBH41JXMN109186"));
    assert!(!VehicleVin::is_valid_check_digit("1HGBH41J1MN109186"));
}

#[test]
fn vin_trims_whitespace() {
    let vin = VehicleVin::new("  1hgbh41jxmn109186  ").unwrap();
    assert_eq!(vin.into_string(), "1HGBH41JXMN109186");
}
