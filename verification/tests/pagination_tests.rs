use fleet_core::pagination::{page_offset, total_pages, SortOrder, DEFAULT_PAGE, DEFAULT_PAGE_SIZE, MAX_PAGE_SIZE};
use fleet_core::vehicle_filter::{default_page, default_page_size, SortBy, VehicleFilter, VehicleFilterError, VehicleQuery};

fn empty_query() -> VehicleQuery {
    VehicleQuery {
        uuid: None,
        make: None,
        model: None,
        year: None,
        vin: None,
        license_plate: None,
        engine_type: None,
        page: DEFAULT_PAGE,
        page_size: DEFAULT_PAGE_SIZE,
        sort_by: None,
        sort_order: None,
    }
}

#[test]
fn offset_of_third_page() {
    assert_eq!(page_offset(3, 10), 20);
    let mut q = empty_query();
    q.page = 3;
    q.page_size = 10;
    let filter = VehicleFilter::from_query(q).unwrap();
    assert_eq!(filter.offset(), 20);
}

#[test]
fn total_pages_guards_zero() {
    assert_eq!(total_pages(0, 10), 1);
    assert_eq!(total_pages(10, 0), 1);
}

#[test]
fn total_pages_rounds_up() {
    assert_eq!(total_pages(95, 10), 10);
    assert_eq!(total_pages(100, 10), 10);
    assert_eq!(total_pages(101, 10), 11);
    assert_eq!(total_pages(1, 10), 1);
}

#[test]
fn sort_order_words() {
    assert_eq!(SortOrder::Asc.to_str(), "asc");
    assert_eq!(SortOrder::Desc.to_str(), "desc");
}

#[test]
fn defaults_and_maximum() {
    assert_eq!(default_page(), 1);
    assert_eq!(default_page_size(), 10);
    assert_eq!(MAX_PAGE_SIZE, 100);
}

#[test]
fn sort_by_parses_case_insensitively() {
    assert!(matches!(SortBy::from_str("MAKE"), Ok(SortBy::Make)));
    assert!(matches!(SortBy::from_str("updated_at"), Ok(SortBy::UpdatedAt)));
    assert_eq!(SortBy::from_str("colour").unwrap_err(), "Invalid sort field: colour");
    assert_eq!(SortBy::Vin.as_column_name(), "vin");
    assert_eq!(SortBy::LicensePlate.as_column_name(), "license_plate");
}

#[test]
fn from_query_clamps_page_size() {
    let mut q = empty_query();
    q.page_size = 250;
    let filter = VehicleFilter::from_query(q).unwrap();
    assert_eq!(filter.page_size, 100);
}

#[test]
fn from_query_rejects_bad_fields() {
    let mut q = empty_query();
    q.uuid = Some("not-a-uuid".to_string());
    assert!(matches!(
        VehicleFilter::from_query(q),
        Err(VehicleFilterError::InvalidUuid(_))
    ));

    let mut q = empty_query();
    q.vin = Some("short".to_string());
    assert!(matches!(
        VehicleFilter::from_query(q),
        Err(VehicleFilterError::InvalidVin(_))
    ));

    let mut q = empty_query();
    q.engine_type = Some("   ".to_string());
    assert!(matches!(
        VehicleFilter::from_query(q),
        Err(VehicleFilterError::InvalidEngineType(_))
    ));

    let mut q = empty_query();
    q.sort_by = Some("colour".to_string());
    assert!(matches!(
        VehicleFilter::from_query(q),
        Err(VehicleFilterError::InvalidSortBy(_))
    ));
}

#[test]
fn from_query_normalizes_fields() {
    let mut q = empty_query();
    q.uuid = Some("550e8400-e29b-41d4-a716-446655440000".to_string());
    q.vin = Some("1hgbh41jxmn109186".to_string());
    q.license_plate = Some("123abc45".to_string());
    q.engine_type = Some("petrol".to_string());
    q.sort_by = Some("Year".to_string());
    let filter = VehicleFilter::from_query(q).unwrap();
    assert_eq!(filter.uuid, Some(0x550e8400e29b41d4a716446655440000u128));
    assert_eq!(filter.vin.unwrap().value(), "1HGBH41JXMN109186");
    assert_eq!(filter.license_plate.unwrap().value(), "123ABC45");
    assert!(matches!(filter.sort_by, Some(SortBy::Year)));
}
