use fleet_core::create_vehicle::{CreateVehicleCmd, CreateVehicleError, CreateVehicleUseCase};
use fleet_core::engine_type::EngineType;
use fleet_core::get_all_vehicle::GetAllVehicleUseCase;
use fleet_core::in_memory::InMemoryVehicleRepository;
use fleet_core::maintenance::{Maintenance, MaintenanceError, NewMaintenance};
use fleet_core::maintenance_record::MaintenanceRecord;
use fleet_core::maintenance_type::MaintenanceType;
use fleet_core::email::Email;
use fleet_core::ids::UserId;
use fleet_core::interval_type::MaintenanceIntervalType;
use fleet_core::license_plate::LicensePlate;
use fleet_core::user::UserIdentity;
use fleet_core::vehicle::{TrackingType, Vehicle, VehicleIdentity};
use fleet_core::vehicle_status::VehicleStatusIdentity;
use fleet_core::vin::VehicleVin;

fn cmd(vin: &str, plate: &str) -> CreateVehicleCmd {
    CreateVehicleCmd {
        make: "Honda".to_string(),
        model: "Civic".to_string(),
        year: 2020,
        vin: vin.to_string(),
        license_plate: plate.to_string(),
        engine_type: "gasoline".to_string(),
    }
}

fn sample_identity() -> VehicleIdentity {
    VehicleIdentity {
        id: 11,
        make: "Honda".to_string(),
        model: "Civic".to_string(),
        year: 2020,
        vin: VehicleVin::new("1HGBH41JXMN109186").unwrap(),
        license_plate: LicensePlate::new("123ABC45").unwrap(),
        engine_type: EngineType::Gasoline,
        created_at: 0,
        updated_at: 0,
    }
}

fn sample_user() -> UserIdentity {
    UserIdentity {
        id: 42,
        uuid: UserId::new(42),
        username: "mechanic".to_string(),
        email: Email::new("mechanic@example.com".to_string()).unwrap(),
        first_name: "Sam".to_string(),
        last_name: "Smith".to_string(),
    }
}

#[test]
fn create_vehicle_registers_and_conflicts() {
    let mut repo = InMemoryVehicleRepository::new();
    let uc = CreateVehicleUseCase::new();
    let identity = uc.execute(&mut repo, cmd("1hgbh41jxmn109186", "123abc45")).unwrap();
    assert_eq!(identity.vin.value(), "1HGBH41JXMN109186");
    assert_eq!(identity.license_plate.value(), "123ABC45");
    assert_eq!(identity.year, 2020);
    let again = uc.execute(&mut repo, cmd("1HGBH41JXMN109186", "A123BCD"));
    assert!(matches!(again, Err(CreateVehicleError::VehicleAlreadyExists(v)) if v == "1HGBH41JXMN109186"));
}

#[test]
fn create_vehicle_rejects_bad_input() {
    let mut repo = InMemoryVehicleRepository::new();
    let uc = CreateVehicleUseCase::new();
    let bad_vin = uc.execute(&mut repo, cmd("1HGBH41JXMN10918", "123ABC45"));
    assert!(matches!(
        bad_vin,
        Err(CreateVehicleError::InvalidInput(fleet_core::vehicle::VehicleError::InvalidVin(_)))
    ));
    let mut early = cmd("1HGBH41JXMN109186", "123ABC45");
    early.year = 1900;
    let bad_year = uc.execute(&mut repo, early);
    assert!(matches!(
        bad_year,
        Err(CreateVehicleError::InvalidInput(fleet_core::vehicle::VehicleError::InvalidYear(1900)))
    ));
    let mut blank = cmd("1HGBH41JXMN109186", "123ABC45");
    blank.engine_type = "   ".to_string();
    let bad_engine = uc.execute(&mut repo, blank);
    assert!(matches!(
        bad_engine,
        Err(CreateVehicleError::InvalidInput(
            fleet_core::vehicle::VehicleError::InvalidEngineType(_)
        ))
    ));
}

#[test]
fn get_all_vehicles_wraps_identities() {
    let mut repo = InMemoryVehicleRepository::new();
    let uc = CreateVehicleUseCase::new();
    uc.execute(&mut repo, cmd("1hgbh41jxmn109186", "123abc45")).unwrap();
    let vehicles = GetAllVehicleUseCase::new().execute(&repo).unwrap();
    assert_eq!(vehicles.len(), 1);
    assert!(vehicles[0].latest_status.is_none());
    assert_eq!(vehicles[0].make(), "Honda");
    assert_eq!(vehicles[0].vin().value(), "1HGBH41JXMN109186");
}

#[test]
fn vehicle_new_validates_and_stamps() {
    let built = Vehicle::new(fleet_core::vehicle::NewVehicle {
        make: "Honda".to_string(),
        model: "Civic".to_string(),
        year: 2020,
        vin: "1hgbh41jxmn109186".to_string(),
        license_plate: " a123bcd ".to_string(),
        engine_type: "EV".to_string(),
    })
    .unwrap();
    assert_eq!(built.vin().value(), "1HGBH41JXMN109186");
    assert_eq!(built.license_plate().value(), "A123BCD");
    assert_eq!(built.engine_type(), &EngineType::Electric);
    assert_eq!(built.created_at(), built.updated_at());
    assert_eq!(built.year(), 2020);
    assert_eq!(built.model(), "Civic");
    assert_ne!(TrackingType::Kilometers, TrackingType::EngineHours);

    let blank_engine = Vehicle::new(fleet_core::vehicle::NewVehicle {
        make: "Honda".to_string(),
        model: "Civic".to_string(),
        year: 2020,
        vin: "1hgbh41jxmn109186".to_string(),
        license_plate: "123abc45".to_string(),
        engine_type: String::new(),
    });
    assert!(matches!(
        blank_engine,
        Err(fleet_core::vehicle::VehicleError::InvalidEngineType(_))
    ));
}

#[test]
fn maintenance_rule_threshold_order() {
    let mt = MaintenanceType::new("Oil Change".to_string(), String::new()).unwrap();
    let inverted = Maintenance::new(
        mt.clone(),
        1,
        sample_identity(),
        sample_user(),
        NewMaintenance {
            interval_type: "Kilometers".to_string(),
            interval_value: 10000,
            red_threshold: 80,
            yellow_threshold: 95,
        },
    );
    assert!(matches!(inverted, Err(MaintenanceError::InvalidThreshold(_))));

    let ordered = Maintenance::new(
        mt,
        1,
        sample_identity(),
        sample_user(),
        NewMaintenance {
            interval_type: "Kilometers".to_string(),
            interval_value: 10000,
            red_threshold: 95,
            yellow_threshold: 80,
        },
    )
    .unwrap();
    assert_eq!(ordered.identity.red_threshold, 95);
    assert_eq!(ordered.identity.yellow_threshold, 80);
    assert_eq!(ordered.identity.interval_type, MaintenanceIntervalType::Kilometers);
    assert_eq!(ordered.identity.created_by, 42);
}

#[test]
fn maintenance_rule_unknown_interval() {
    let mt = MaintenanceType::new("Oil Change".to_string(), String::new()).unwrap();
    let r = Maintenance::new(
        mt,
        1,
        sample_identity(),
        sample_user(),
        NewMaintenance {
            interval_type: "Fortnights".to_string(),
            interval_value: 2,
            red_threshold: 95,
            yellow_threshold: 80,
        },
    );
    assert!(matches!(r, Err(MaintenanceError::UnknownIntervalType(t)) if t == "Fortnights"));
}

#[test]
fn maintenance_record_links_entities() {
    let vehicle = sample_identity();
    let user = sample_user();
    let mt = MaintenanceType::new("Oil Change".to_string(), String::new()).unwrap();
    let rule = Maintenance::new(
        mt,
        1,
        vehicle.clone(),
        user.clone(),
        NewMaintenance {
            interval_type: "Years".to_string(),
            interval_value: 1,
            red_threshold: 95,
            yellow_threshold: 80,
        },
    )
    .unwrap();
    let status = VehicleStatusIdentity {
        id: 5,
        vehicle_id: vehicle.id,
        performed_by: user.id,
        performed_at: 1000,
        odometer: 50000,
        engine_hour_meter: None,
        fuel_level: Some(70),
        notes: "routine".to_string(),
        created_at: 1000,
        updated_at: 1000,
    };
    let record = MaintenanceRecord::new(
        vehicle,
        rule.identity,
        user,
        status,
        1234,
        "changed oil".to_string(),
    );
    assert_eq!(record.performed_at(), 1234);
    assert_eq!(record.details(), "changed oil");
    assert_eq!(record.identity.vehicle_id, 11);
    assert_eq!(record.identity.user_id, 42);
    assert_eq!(record.identity.vehicle_status_id, 5);
}
