use fleet_core::auth::AuthenticatedUser;
use fleet_core::email::Email;
use fleet_core::ids::UserId;
use fleet_core::in_memory::{InMemoryMaintenanceCatalog, InMemoryMaintenanceTypeRepository, InMemoryVehicleRepository};
use fleet_core::maintenance_commands::{
    CreateMaintenanceTypeCommand, CreateMaintenanceTypeError, CreateMaintenanceTypeUseCase,
    DeleteMaintenanceTypeCommand, DeleteMaintenanceTypeError, DeleteMaintenanceTypeUseCase,
    UpdateMaintenanceTypeCommand, UpdateMaintenanceTypeError, UpdateMaintenanceTypeUseCase,
};
use fleet_core::maintenance_queries::{
    GetAllMaintenanceTypesQuery, GetAllMaintenanceTypesUseCase, GetMaintenanceTypeByIdError,
    GetMaintenanceTypeByIdQuery, GetMaintenanceTypeByIdUseCase, SearchMaintenanceTypesError,
    SearchMaintenanceTypesQuery, SearchMaintenanceTypesUseCase,
};
use fleet_core::maintenance_repository::MaintenanceRepository;
use fleet_core::maintenance_type::{MaintenanceType, MaintenanceTypeError};
use fleet_core::user::UserIdentity;

fn caller() -> UserIdentity {
    UserIdentity {
        id: 42,
        uuid: UserId::new(42),
        username: "mechanic".to_string(),
        email: Email::new("mechanic@example.com".to_string()).unwrap(),
        first_name: "Sam".to_string(),
        last_name: "Smith".to_string(),
    }
}

fn repo_with_caller() -> InMemoryMaintenanceTypeRepository {
    InMemoryMaintenanceTypeRepository::new(vec![caller()])
}

fn create_cmd(name: &str) -> CreateMaintenanceTypeCommand {
    CreateMaintenanceTypeCommand {
        name: name.to_string(),
        description: format!("{} work", name),
        user_id: 42,
    }
}

#[test]
fn create_maintenance_type_attributes_creator() {
    let mut repo = repo_with_caller();
    let uc = CreateMaintenanceTypeUseCase::new();
    let user = AuthenticatedUser { user_id: 42 };
    let resp = uc.execute(&mut repo, create_cmd("Oil Change"), &user).unwrap();
    assert_eq!(resp.name, "Oil Change");
    assert_eq!(resp.created_by, 42);
    assert_eq!(resp.created_by_email.value(), "mechanic@example.com");
}

#[test]
fn create_maintenance_type_twice_conflicts() {
    let mut repo = repo_with_caller();
    let uc = CreateMaintenanceTypeUseCase::new();
    let user = AuthenticatedUser { user_id: 42 };
    let first = uc.execute(&mut repo, create_cmd("Oil Change"), &user);
    assert!(first.is_ok());
    assert_eq!(first.unwrap().created_by, 42);
    let second = uc.execute(&mut repo, create_cmd("Oil Change"), &user);
    assert!(matches!(second, Err(CreateMaintenanceTypeError::AlreadyExists)));
}

#[test]
fn create_maintenance_type_rejects_blank_name() {
    let mut repo = repo_with_caller();
    let uc = CreateMaintenanceTypeUseCase::new();
    let user = AuthenticatedUser { user_id: 42 };
    let r = uc.execute(&mut repo, create_cmd(""), &user);
    assert!(matches!(
        r,
        Err(CreateMaintenanceTypeError::Validation(MaintenanceTypeError::EmptyField))
    ));
}

#[test]
fn create_maintenance_type_unknown_user_is_store_failure() {
    let mut repo = repo_with_caller();
    let uc = CreateMaintenanceTypeUseCase::new();
    let stranger = AuthenticatedUser { user_id: 7 };
    let r = uc.execute(&mut repo, create_cmd("Oil Change"), &stranger);
    assert!(matches!(r, Err(CreateMaintenanceTypeError::Repository(_))));
}

#[test]
fn delete_maintenance_type_round_trip() {
    let mut repo = repo_with_caller();
    let user = AuthenticatedUser { user_id: 42 };
    let created = CreateMaintenanceTypeUseCase::new()
        .execute(&mut repo, create_cmd("Oil Change"), &user)
        .unwrap();
    let uc = DeleteMaintenanceTypeUseCase::new();
    let resp = uc
        .execute(&mut repo, DeleteMaintenanceTypeCommand { id: created.id, user_id: 42 }, &user)
        .unwrap();
    assert!(resp.success);
    let again = uc.execute(
        &mut repo,
        DeleteMaintenanceTypeCommand { id: created.id, user_id: 42 },
        &user,
    );
    assert!(matches!(again, Err(DeleteMaintenanceTypeError::NotFound)));
}

#[test]
fn update_maintenance_type_renames() {
    let mut repo = repo_with_caller();
    let user = AuthenticatedUser { user_id: 42 };
    let created = CreateMaintenanceTypeUseCase::new()
        .execute(&mut repo, create_cmd("Oil Change"), &user)
        .unwrap();
    let uc = UpdateMaintenanceTypeUseCase::new();
    let resp = uc
        .execute(
            &mut repo,
            UpdateMaintenanceTypeCommand {
                id: created.id,
                name: "Oil Service".to_string(),
                description: "full service".to_string(),
            },
            &user,
        )
        .unwrap();
    assert_eq!(resp.id, created.id);
    assert_eq!(resp.name, "Oil Service");
    assert_eq!(resp.updated_by, 42);
}

#[test]
fn update_maintenance_type_errors() {
    let mut repo = repo_with_caller();
    let user = AuthenticatedUser { user_id: 42 };
    let uc = UpdateMaintenanceTypeUseCase::new();
    let created = CreateMaintenanceTypeUseCase::new()
        .execute(&mut repo, create_cmd("Oil Change"), &user)
        .unwrap();
    CreateMaintenanceTypeUseCase::new()
        .execute(&mut repo, create_cmd("Tire Rotation"), &user)
        .unwrap();

    let missing = uc.execute(
        &mut repo,
        UpdateMaintenanceTypeCommand { id: 999, name: "X".to_string(), description: String::new() },
        &user,
    );
    assert!(matches!(missing, Err(UpdateMaintenanceTypeError::NotFound)));

    let taken = uc.execute(
        &mut repo,
        UpdateMaintenanceTypeCommand {
            id: created.id,
            name: "Tire Rotation".to_string(),
            description: String::new(),
        },
        &user,
    );
    assert!(matches!(taken, Err(UpdateMaintenanceTypeError::NameAlreadyExists)));

    let blank = uc.execute(
        &mut repo,
        UpdateMaintenanceTypeCommand { id: created.id, name: String::new(), description: String::new() },
        &user,
    );
    assert!(matches!(blank, Err(UpdateMaintenanceTypeError::Validation(_))));
}

#[test]
fn get_all_maintenance_types_lists_catalog() {
    let mut repo = repo_with_caller();
    let user = AuthenticatedUser { user_id: 42 };
    CreateMaintenanceTypeUseCase::new()
        .execute(&mut repo, create_cmd("Oil Change"), &user)
        .unwrap();
    CreateMaintenanceTypeUseCase::new()
        .execute(&mut repo, create_cmd("Tire Rotation"), &user)
        .unwrap();
    let resp = GetAllMaintenanceTypesUseCase::new()
        .execute(&repo, GetAllMaintenanceTypesQuery)
        .unwrap();
    assert_eq!(resp.total_count, 2);
    assert_eq!(resp.maintenance_types.len(), 2);
    assert_eq!(resp.maintenance_types[0].name, "Oil Change");
    assert_eq!(resp.maintenance_types[1].name, "Tire Rotation");
}

#[test]
fn get_maintenance_type_by_id_flows() {
    let mut repo = repo_with_caller();
    let user = AuthenticatedUser { user_id: 42 };
    let created = CreateMaintenanceTypeUseCase::new()
        .execute(&mut repo, create_cmd("Oil Change"), &user)
        .unwrap();
    let uc = GetMaintenanceTypeByIdUseCase::new();
    let resp = uc.execute(&repo, GetMaintenanceTypeByIdQuery { id: created.id }).unwrap();
    assert_eq!(resp.id, created.id);
    assert_eq!(resp.name, "Oil Change");
    assert_eq!(resp.created_by, 42);
    assert_eq!(resp.created_by_email.value(), "mechanic@example.com");
    let missing = uc.execute(&repo, GetMaintenanceTypeByIdQuery { id: 999 });
    assert!(matches!(missing, Err(GetMaintenanceTypeByIdError::NotFound)));
}

#[test]
fn search_finds_oil_change_case_insensitively() {
    let mut repo = repo_with_caller();
    let user = AuthenticatedUser { user_id: 42 };
    CreateMaintenanceTypeUseCase::new()
        .execute(&mut repo, create_cmd("Oil Change"), &user)
        .unwrap();
    CreateMaintenanceTypeUseCase::new()
        .execute(&mut repo, create_cmd("Tire Rotation"), &user)
        .unwrap();
    let resp = SearchMaintenanceTypesUseCase::new()
        .execute(
            &repo,
            SearchMaintenanceTypesQuery { search_term: "oil".to_string(), limit: None },
        )
        .unwrap();
    assert_eq!(resp.total_found, 1);
    assert_eq!(resp.results.len(), 1);
    assert_eq!(resp.results[0].name, "Oil Change");
    assert_eq!(resp.search_term, "oil");
}

#[test]
fn search_applies_limit_and_counts_after_truncation() {
    let mut repo = repo_with_caller();
    let user = AuthenticatedUser { user_id: 42 };
    CreateMaintenanceTypeUseCase::new()
        .execute(&mut repo, create_cmd("Oil Change"), &user)
        .unwrap();
    CreateMaintenanceTypeUseCase::new()
        .execute(&mut repo, create_cmd("Oil Filter"), &user)
        .unwrap();
    let resp = SearchMaintenanceTypesUseCase::new()
        .execute(
            &repo,
            SearchMaintenanceTypesQuery { search_term: "OIL".to_string(), limit: Some(1) },
        )
        .unwrap();
    assert_eq!(resp.total_found, 1);
    assert_eq!(resp.results.len(), 1);
    assert_eq!(resp.results[0].name, "Oil Change");
}

#[test]
fn search_rejects_blank_term() {
    let repo = repo_with_caller();
    let r = SearchMaintenanceTypesUseCase::new().execute(
        &repo,
        SearchMaintenanceTypesQuery { search_term: "   ".to_string(), limit: None },
    );
    assert!(matches!(r, Err(SearchMaintenanceTypesError::EmptySearchTerm)));
}

#[test]
fn maintenance_catalog_round_trip() {
    let mut catalog = InMemoryMaintenanceCatalog::new();
    let oil = MaintenanceType::new("Oil Change".to_string(), "drain and fill".to_string()).unwrap();
    let echoed = catalog.create(oil).unwrap();
    assert_eq!(echoed.name(), "Oil Change");
    let all = catalog.get_all().unwrap();
    assert_eq!(all.len(), 1);
    let renamed = MaintenanceType::new("Oil Change".to_string(), "synthetic".to_string()).unwrap();
    let updated = catalog.update(renamed).unwrap();
    assert_eq!(updated.description(), "synthetic");
    let gone = MaintenanceType::new("Oil Change".to_string(), String::new()).unwrap();
    assert!(catalog.delete(gone).unwrap());
    let missing = MaintenanceType::new("Oil Change".to_string(), String::new()).unwrap();
    assert!(!catalog.delete(missing).unwrap());
    let _ = InMemoryVehicleRepository::new();
}
