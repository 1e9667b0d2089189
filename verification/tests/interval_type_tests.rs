use fleet_core::interval_type::MaintenanceIntervalType;

#[test]
fn interval_type_round_trip() {
    assert_eq!(MaintenanceIntervalType::Kilometers.as_str(), "Kilometers");
    assert_eq!(MaintenanceIntervalType::EngineHours.as_str(), "Engine Hours");
    assert_eq!(MaintenanceIntervalType::Years.as_str(), "Years");
    assert_eq!(
        MaintenanceIntervalType::from_str("Kilometers"),
        Some(MaintenanceIntervalType::Kilometers)
    );
    assert_eq!(
        MaintenanceIntervalType::from_str("Engine Hours"),
        Some(MaintenanceIntervalType::EngineHours)
    );
    assert_eq!(
        MaintenanceIntervalType::from_str("Years"),
        Some(MaintenanceIntervalType::Years)
    );
}

#[test]
fn interval_type_rejects_unknown() {
    assert_eq!(MaintenanceIntervalType::from_str("Fortnights"), None);
    assert_eq!(MaintenanceIntervalType::from_str("kilometers"), None);
    assert_eq!(
        MaintenanceIntervalType::from_str_or_err("Fortnights").unwrap_err(),
        "Invalid maintenance interval type: Fortnights"
    );
    assert_eq!(
        MaintenanceIntervalType::from_str_or_err("Years"),
        Ok(MaintenanceIntervalType::Years)
    );
}
