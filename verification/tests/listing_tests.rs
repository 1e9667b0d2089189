use fleet_core::pagination::SortOrder;
use fleet_core::vehicle_listing::{
    GetVehiclesUseCase, InMemoryVehicleListing, NewVehicleFilter, VehicleFilter, VehicleSortBy,
    VehicleView,
};

fn view(id: &str, make: &str) -> VehicleView {
    VehicleView {
        id: id.to_string(),
        make: make.to_string(),
        model: "Civic".to_string(),
        year: 2020,
        vin: "1HGBH41JXMN109186".to_string(),
        license_plate: "123ABC45".to_string(),
        engine_type: "gasoline".to_string(),
        created_at: 0,
        updated_at: 0,
    }
}

fn filter_for_make(make: &str) -> VehicleFilter {
    VehicleFilter::new(NewVehicleFilter {
        make: Some(make.to_string()),
        model: None,
        year: None,
        vin: None,
        license_plate: None,
        engine_type: None,
    })
}

#[test]
fn listing_filters_by_make() {
    let listing = InMemoryVehicleListing::new(vec![view("a", "Toyota"), view("b", "Ford")]);
    let resp = GetVehiclesUseCase::new().execute(&listing, filter_for_make("Toyota")).unwrap();
    assert_eq!(resp.total_count, 1);
    assert_eq!(resp.vehicles.len(), 1);
    assert_eq!(resp.vehicles[0].make, "Toyota");
    assert_eq!(resp.page, 1);
    assert_eq!(resp.page_size, 10);
    assert_eq!(resp.total_pages, 1);
}

#[test]
fn listing_renders_moments() {
    let listing = InMemoryVehicleListing::new(vec![view("a", "Toyota")]);
    let resp = GetVehiclesUseCase::new().execute(&listing, filter_for_make("Toyota")).unwrap();
    assert_eq!(resp.vehicles[0].created_at, "1970-01-01T00:00:00+00:00");
}

#[test]
fn listing_pages_results() {
    let mut views = Vec::new();
    for i in 0..25 {
        views.push(view(&format!("v{}", i), "Toyota"));
    }
    let mut filter = filter_for_make("Toyota");
    filter.page = 2;
    let listing = InMemoryVehicleListing::new(views);
    let resp = GetVehiclesUseCase::new().execute(&listing, filter).unwrap();
    assert_eq!(resp.total_count, 10);
    assert_eq!(resp.vehicles[0].id, "v10");
}

#[test]
fn vehicle_sort_by_parses() {
    assert!(matches!(VehicleSortBy::from_str("Engine_Type"), Ok(VehicleSortBy::EngineType)));
    assert_eq!(VehicleSortBy::from_str("colour").unwrap_err(), "Invalid sort field: colour");
    assert_eq!(VehicleSortBy::CreatedAt.as_column_name(), "created_at");
    assert_eq!(SortOrder::Desc.to_str(), "desc");
}

#[test]
fn rfc3339_rendering_is_canonical() {
    let mut v = view("a", "Toyota");
    v.created_at = 947638923004;
    let listing = InMemoryVehicleListing::new(vec![v]);
    let resp = GetVehiclesUseCase::new().execute(&listing, filter_for_make("Toyota")).unwrap();
    assert_eq!(resp.vehicles[0].created_at, "2000-01-12T01:02:03.004+00:00");
    assert_eq!(resp.vehicles[0].updated_at, "1970-01-01T00:00:00+00:00");
}
