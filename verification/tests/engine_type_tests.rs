use fleet_core::engine_type::{EngineType, EngineTypeError};

#[test]
fn test_standard_engine_types() {
    assert_eq!(EngineType::new("gasoline").unwrap(), EngineType::Gasoline);
    assert_eq!(EngineType::new("diesel").unwrap(), EngineType::Diesel);
    assert_eq!(EngineType::new("electric").unwrap(), EngineType::Electric);
}

#[test]
fn test_case_insensitive() {
    assert_eq!(EngineType::new("GASOLINE").unwrap(), EngineType::Gasoline);
    assert_eq!(EngineType::new("Diesel").unwrap(), EngineType::Diesel);
    assert_eq!(EngineType::new("Electric").unwrap(), EngineType::Electric);
}

#[test]
fn test_aliases() {
    assert_eq!(EngineType::new("petrol").unwrap(), EngineType::Gasoline);
    assert_eq!(EngineType::new("ev").unwrap(), EngineType::Electric);
}

#[test]
fn test_other_type() {
    let engine = EngineType::new("rotary").unwrap();
    assert_eq!(engine, EngineType::Other("rotary".to_string()));
}

#[test]
fn test_empty_engine_type() {
    assert!(matches!(EngineType::new(""), Err(EngineTypeError::Empty)));
}

#[test]
fn test_electric_powered() {
    assert!(EngineType::Electric.is_electric_powered());
    assert!(!EngineType::Gasoline.is_electric_powered());
}

#[test]
fn test_fossil_fuel() {
    assert!(EngineType::Gasoline.uses_fossil_fuel());
    assert!(EngineType::Diesel.uses_fossil_fuel());
    assert!(!EngineType::Electric.uses_fossil_fuel());
}

#[test]
fn test_alternative_fuel() {
    assert!(EngineType::Electric.is_alternative_fuel());
    assert!(!EngineType::Gasoline.is_alternative_fuel());
}

#[test]
fn engine_type_test_display() {
    assert_eq!(format!("{}", EngineType::Gasoline.display_name()), "Gasoline");
    assert_eq!(
        format!("{}", EngineType::Other("Rotary".to_string()).display_name()),
        "Rotary"
    );
}

#[test]
fn test_as_str() {
    assert_eq!(EngineType::Gasoline.as_str(), "gasoline");
}

#[test]
fn engine_normalization_collapses_separators() {
    assert_eq!(EngineType::new("  Gas oline  ").unwrap(), EngineType::Other("Gas oline".to_string()));
    assert_eq!(EngineType::new("bEv").unwrap(), EngineType::Electric);
    assert_eq!(EngineType::standard_types().len(), 3);
}
