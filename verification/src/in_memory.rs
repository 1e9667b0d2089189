//! In-memory stores satisfying the repository ports: the reference
//! implementations the ports are proved satisfiable by, and what the
//! end-to-end tests run against.
use vstd::prelude::*;

use crate::clock::now_timestamp_millis;
use crate::maintenance_type::MaintenanceType;
use crate::maintenance_type::MaintenanceTypeView;
use crate::maintenance_repository::MaintenanceRepository;
use crate::maintenance_repository::MaintenanceRepositoryError;
use crate::maintenance_type_repository::MaintenanceTypeRepository;
use crate::maintenance_type_repository::MaintenanceTypeRepositoryError;
use crate::text::str_eq;
use crate::user::UserIdentity;
use crate::vehicle::VehicleIdentity;
use crate::vehicle_filter::VehicleFilter;
use crate::vehicle_repository::VehicleRepository;
use crate::vehicle_repository::VehicleRepositoryError;
use crate::vehicle_repository::identity_matches_filter;

verus! {

/// A maintenance-type store backed by a vector, with a fixed directory of
/// known users for audit attribution.
pub struct InMemoryMaintenanceTypeRepository {
    users: Vec<UserIdentity>,
    entries: Vec<MaintenanceTypeView>,
    next_id: i32,
}

impl InMemoryMaintenanceTypeRepository {
    /// An empty store that will attribute writes to the given users.
    pub fn new(users: Vec<UserIdentity>) -> (r: Self)
        ensures
            r.views() == Seq::<MaintenanceTypeView>::empty(),
    {
        InMemoryMaintenanceTypeRepository { users, entries: Vec::new(), next_id: 1 }
    }

    /// The user a write is attributed to, if the directory knows the
    /// identifier.
    fn find_user(&self, user_id: u128) -> (r: Option<UserIdentity>)
        ensures
            r matches Some(u) ==> u.id == user_id,
    {
        let n = self.users.len();
        let mut i: usize = 0;
        while i < n
            invariant
                n == self.users.len(),
                0 <= i <= n,
            decreases n - i,
        {
            if self.users[i].id == user_id {
                return Some(self.users[i].clone());
            }
            i = i + 1;
        }
        None
    }
}

impl MaintenanceTypeRepository for InMemoryMaintenanceTypeRepository {
    closed spec fn views(&self) -> Seq<MaintenanceTypeView> {
        self.entries@
    }

    fn create(&mut self, maintenance_type: MaintenanceType, user_id: u128) -> (r: Result<
        MaintenanceTypeView,
        MaintenanceTypeRepositoryError,
    >) {
        let user = match self.find_user(user_id) {
            Some(u) => u,
            None => {
                return Err(
                    MaintenanceTypeRepositoryError::Database(
                        String::from_str("unknown user identifier"),
                    ),
                );
            },
        };
        if self.next_id == i32::MAX {
            return Err(
                MaintenanceTypeRepositoryError::Database(
                    String::from_str("identifier space exhausted"),
                ),
            );
        }
        let id = self.next_id;
        self.next_id = self.next_id + 1;
        let now = now_timestamp_millis();
        let v = MaintenanceTypeView {
            id,
            name: maintenance_type.name().to_owned(),
            description: maintenance_type.description().to_owned(),
            created_at: now,
            created_by: user.clone(),
            updated_at: now,
            updated_by: user,
        };
        let out = v.clone();
        self.entries.push(v);
        Ok(out)
    }

    fn get_by_id(&self, id: i32) -> (r: Result<
        Option<MaintenanceType>,
        MaintenanceTypeRepositoryError,
    >) {
        let n = self.entries.len();
        let mut i: usize = 0;
        while i < n
            invariant
                n == self.entries.len(),
                0 <= i <= n,
                forall|j: int| 0 <= j < i ==> (#[trigger] self.entries@[j]).id != id,
            decreases n - i,
        {
            if self.entries[i].id == id {
                let t = MaintenanceType::from_parts(
                    self.entries[i].name.clone(),
                    self.entries[i].description.clone(),
                );
                proof {
                    assert((self.views()[i as int]).id == id);
                }
                return Ok(Some(t));
            }
            i = i + 1;
        }
        Ok(None)
    }

    fn get_view_by_id(&self, id: i32) -> (r: Result<
        Option<MaintenanceTypeView>,
        MaintenanceTypeRepositoryError,
    >) {
        let n = self.entries.len();
        let mut i: usize = 0;
        while i < n
            invariant
                n == self.entries.len(),
                0 <= i <= n,
                forall|j: int| 0 <= j < i ==> (#[trigger] self.entries@[j]).id != id,
            decreases n - i,
        {
            if self.entries[i].id == id {
                let v = self.entries[i].clone();
                proof {
                    assert(self.entries@[i as int] == v);
                }
                return Ok(Some(v));
            }
            i = i + 1;
        }
        Ok(None)
    }

    fn get_all_view(&self) -> (r: Result<Vec<MaintenanceTypeView>, MaintenanceTypeRepositoryError>) {
        let n = self.entries.len();
        let mut out: Vec<MaintenanceTypeView> = Vec::new();
        let mut i: usize = 0;
        while i < n
            invariant
                n == self.entries.len(),
                0 <= i <= n,
                out@ == self.entries@.subrange(0, i as int),
            decreases n - i,
        {
            out.push(self.entries[i].clone());
            proof {
                assert(out@ =~= self.entries@.subrange(0, i + 1));
            }
            i = i + 1;
        }
        proof {
            assert(self.entries@.subrange(0, n as int) =~= self.entries@);
        }
        Ok(out)
    }

    fn exists_by_name(&self, name: &str) -> (r: Result<bool, MaintenanceTypeRepositoryError>) {
        let n = self.entries.len();
        let mut i: usize = 0;
        while i < n
            invariant
                n == self.entries.len(),
                0 <= i <= n,
                forall|j: int| 0 <= j < i ==> (#[trigger] self.entries@[j]).name@ != name@,
            decreases n - i,
        {
            if str_eq(self.entries[i].name.as_str(), name) {
                return Ok(true);
            }
            i = i + 1;
        }
        Ok(false)
    }

    fn update(&mut self, id: i32, maintenance_type: MaintenanceType, user_id: u128) -> (r: Result<
        MaintenanceTypeView,
        MaintenanceTypeRepositoryError,
    >) {
        let user = match self.find_user(user_id) {
            Some(u) => u,
            None => {
                return Err(
                    MaintenanceTypeRepositoryError::Database(
                        String::from_str("unknown user identifier"),
                    ),
                );
            },
        };
        let n = self.entries.len();
        let mut i: usize = 0;
        while i < n
            invariant
                n == self.entries.len(),
                0 <= i <= n,
                self.entries@ == old(self).entries@,
                user.id == user_id,
            decreases n - i,
        {
            if self.entries[i].id == id {
                let now = now_timestamp_millis();
                let v = MaintenanceTypeView {
                    id,
                    name: maintenance_type.name().to_owned(),
                    description: maintenance_type.description().to_owned(),
                    created_at: self.entries[i].created_at,
                    created_by: self.entries[i].created_by.clone(),
                    updated_at: now,
                    updated_by: user,
                };
                let out = v.clone();
                let ghost before = self.entries@;
                self.entries.remove(i);
                self.entries.insert(i, v);
                proof {
                    assert((old(self).views()[i as int]).id == id);
                    assert(self.entries@ =~= before.update(i as int, out));
                }
                return Ok(out);
            }
            i = i + 1;
        }
        Err(MaintenanceTypeRepositoryError::Database(String::from_str("no such maintenance type")))
    }

    fn delete(&mut self, maintenance_type: MaintenanceType, id: i32, user_id: u128) -> (r: Result<
        (),
        MaintenanceTypeRepositoryError,
    >) {
        let n = self.entries.len();
        let mut i: usize = 0;
        while i < n
            invariant
                n == self.entries.len(),
                0 <= i <= n,
                self.entries@ == old(self).entries@,
            decreases n - i,
        {
            if self.entries[i].id == id {
                self.entries.remove(i);
                proof {
                    assert((old(self).views()[i as int]).id == id);
                    assert(self.entries@ == old(self).entries@.remove(i as int));
                }
                return Ok(());
            }
            i = i + 1;
        }
        Err(MaintenanceTypeRepositoryError::Database(String::from_str("no such maintenance type")))
    }
}

/// A vehicle store backed by a vector, enforcing uniqueness of
/// identification number and plate on write, as a backing store's
/// constraint would.
pub struct InMemoryVehicleRepository {
    entries: Vec<VehicleIdentity>,
}

impl InMemoryVehicleRepository {
    /// An empty store.
    pub fn new() -> (r: Self)
        ensures
            r.vehicles() == Seq::<VehicleIdentity>::empty(),
    {
        InMemoryVehicleRepository { entries: Vec::new() }
    }

    /// Whether a stored vehicle agrees with every field the filter
    /// fixes.
    fn matches_filter(v: &VehicleIdentity, f: &VehicleFilter) -> (r: bool)
        ensures
            r == identity_matches_filter(*v, *f),
    {
        let uuid_ok = match &f.uuid {
            Some(u) => v.id == *u,
            None => true,
        };
        let make_ok = match &f.make {
            Some(m) => str_eq(v.make.as_str(), m.as_str()),
            None => true,
        };
        let model_ok = match &f.model {
            Some(m) => str_eq(v.model.as_str(), m.as_str()),
            None => true,
        };
        let year_ok = match &f.year {
            Some(y) => v.year == *y,
            None => true,
        };
        let vin_ok = match &f.vin {
            Some(x) => str_eq(v.vin.value(), x.value()),
            None => true,
        };
        let plate_ok = match &f.license_plate {
            Some(p) => str_eq(v.license_plate.value(), p.value()),
            None => true,
        };
        let engine_ok = match &f.engine_type {
            Some(e) => v.engine_type.same_as(e),
            None => true,
        };
        uuid_ok && make_ok && model_ok && year_ok && vin_ok && plate_ok && engine_ok
    }
}

impl VehicleRepository for InMemoryVehicleRepository {
    closed spec fn vehicles(&self) -> Seq<VehicleIdentity> {
        self.entries@
    }

    fn create(&mut self, vehicle: VehicleIdentity) -> (r: Result<
        VehicleIdentity,
        VehicleRepositoryError,
    >) {
        let n = self.entries.len();
        let mut i: usize = 0;
        while i < n
            invariant
                n == self.entries.len(),
                0 <= i <= n,
                self.entries@ == old(self).entries@,
            decreases n - i,
        {
            if str_eq(self.entries[i].vin.value(), vehicle.vin.value()) || str_eq(
                self.entries[i].license_plate.value(),
                vehicle.license_plate.value(),
            ) {
                return Err(VehicleRepositoryError::AlreadyExists(self.entries[i].id));
            }
            i = i + 1;
        }
        let echo = vehicle.clone();
        self.entries.push(vehicle);
        Ok(echo)
    }

    fn find_by_filter(&self, filter: VehicleFilter) -> (r: Result<
        Option<VehicleIdentity>,
        VehicleRepositoryError,
    >) {
        let n = self.entries.len();
        let mut i: usize = 0;
        while i < n
            invariant
                n == self.entries.len(),
                0 <= i <= n,
                forall|j: int|
                    0 <= j < i ==> !identity_matches_filter(
                        #[trigger] self.entries@[j],
                        filter,
                    ),
            decreases n - i,
        {
            if Self::matches_filter(&self.entries[i], &filter) {
                let v = self.entries[i].clone();
                proof {
                    assert(self.entries@[i as int] == v);
                }
                return Ok(Some(v));
            }
            i = i + 1;
        }
        Ok(None)
    }

    fn find_by_id(&self, id: u128) -> (r: Result<
        Option<VehicleIdentity>,
        VehicleRepositoryError,
    >) {
        let n = self.entries.len();
        let mut i: usize = 0;
        while i < n
            invariant
                n == self.entries.len(),
                0 <= i <= n,
                forall|j: int| 0 <= j < i ==> (#[trigger] self.entries@[j]).id != id,
            decreases n - i,
        {
            if self.entries[i].id == id {
                let v = self.entries[i].clone();
                proof {
                    assert(self.entries@[i as int] == v);
                }
                return Ok(Some(v));
            }
            i = i + 1;
        }
        Ok(None)
    }

    fn find_all(&self) -> (r: Result<Vec<VehicleIdentity>, VehicleRepositoryError>) {
        let n = self.entries.len();
        let mut out: Vec<VehicleIdentity> = Vec::new();
        let mut i: usize = 0;
        while i < n
            invariant
                n == self.entries.len(),
                0 <= i <= n,
                out@ == self.entries@.subrange(0, i as int),
            decreases n - i,
        {
            out.push(self.entries[i].clone());
            proof {
                assert(out@ =~= self.entries@.subrange(0, i + 1));
            }
            i = i + 1;
        }
        proof {
            assert(self.entries@.subrange(0, n as int) =~= self.entries@);
        }
        Ok(out)
    }

    fn exists_by_vin_or_license_plate(&self, vin: &str, license_plate: &str) -> (r: Result<
        bool,
        VehicleRepositoryError,
    >) {
        let n = self.entries.len();
        let mut i: usize = 0;
        while i < n
            invariant
                n == self.entries.len(),
                0 <= i <= n,
                forall|j: int|
                    0 <= j < i ==> !((#[trigger] self.entries@[j]).vin@ == vin@
                        || self.entries@[j].license_plate@ == license_plate@),
            decreases n - i,
        {
            if str_eq(self.entries[i].vin.value(), vin) || str_eq(
                self.entries[i].license_plate.value(),
                license_plate,
            ) {
                return Ok(true);
            }
            i = i + 1;
        }
        Ok(false)
    }

    fn delete(&mut self, id: u128) -> (r: Result<bool, VehicleRepositoryError>) {
        let n = self.entries.len();
        let mut i: usize = 0;
        while i < n
            invariant
                n == self.entries.len(),
                0 <= i <= n,
                self.entries@ == old(self).entries@,
                forall|j: int| 0 <= j < i ==> (#[trigger] self.entries@[j]).id != id,
            decreases n - i,
        {
            if self.entries[i].id == id {
                self.entries.remove(i);
                proof {
                    assert((old(self).vehicles()[i as int]).id == id);
                    assert(self.entries@ == old(self).entries@.remove(i as int));
                }
                return Ok(true);
            }
            i = i + 1;
        }
        Ok(false)
    }
}

/// A plain maintenance-type catalog backed by a vector, keyed by name.
pub struct InMemoryMaintenanceCatalog {
    entries: Vec<MaintenanceType>,
}

impl InMemoryMaintenanceCatalog {
    /// An empty catalog.
    pub fn new() -> (r: Self)
        ensures
            r.catalog() == Seq::<MaintenanceType>::empty(),
    {
        InMemoryMaintenanceCatalog { entries: Vec::new() }
    }
}

impl MaintenanceRepository for InMemoryMaintenanceCatalog {
    closed spec fn catalog(&self) -> Seq<MaintenanceType> {
        self.entries@
    }

    fn create(&mut self, maintenance_type: MaintenanceType) -> (r: Result<
        MaintenanceType,
        MaintenanceRepositoryError,
    >) {
        let echo = maintenance_type.clone();
        self.entries.push(maintenance_type);
        Ok(echo)
    }

    fn get_by_id(&self, id: i32) -> (r: Result<
        Option<MaintenanceType>,
        MaintenanceRepositoryError,
    >) {
        if id < 0 || self.entries.len() <= id as usize {
            return Ok(None);
        }
        let i = id as usize;
        let t = self.entries[i].clone();
        proof {
            assert((self.catalog()[i as int]).name_spec() == t.name_spec());
        }
        Ok(Some(t))
    }

    fn get_all(&self) -> (r: Result<Vec<MaintenanceType>, MaintenanceRepositoryError>) {
        let n = self.entries.len();
        let mut out: Vec<MaintenanceType> = Vec::new();
        let mut i: usize = 0;
        while i < n
            invariant
                n == self.entries.len(),
                0 <= i <= n,
                out@ == self.entries@.subrange(0, i as int),
            decreases n - i,
        {
            out.push(self.entries[i].clone());
            proof {
                assert(out@ =~= self.entries@.subrange(0, i + 1));
            }
            i = i + 1;
        }
        proof {
            assert(self.entries@.subrange(0, n as int) =~= self.entries@);
        }
        Ok(out)
    }

    fn update(&mut self, maintenance_type: MaintenanceType) -> (r: Result<
        MaintenanceType,
        MaintenanceRepositoryError,
    >) {
        let n = self.entries.len();
        let mut i: usize = 0;
        while i < n
            invariant
                n == self.entries.len(),
                0 <= i <= n,
                self.entries@ == old(self).entries@,
            decreases n - i,
        {
            if str_eq(self.entries[i].name(), maintenance_type.name()) {
                let echo = maintenance_type.clone();
                let ghost before = self.entries@;
                self.entries.remove(i);
                self.entries.insert(i, maintenance_type);
                proof {
                    assert((old(self).catalog()[i as int]).name_spec() == echo.name_spec());
                    assert(self.entries@ =~= before.update(i as int, echo));
                }
                return Ok(echo);
            }
            i = i + 1;
        }
        Err(MaintenanceRepositoryError::Database(String::from_str("no such maintenance type")))
    }

    fn delete(&mut self, maintenance_type: MaintenanceType) -> (r: Result<
        bool,
        MaintenanceRepositoryError,
    >) {
        let n = self.entries.len();
        let mut i: usize = 0;
        while i < n
            invariant
                n == self.entries.len(),
                0 <= i <= n,
                self.entries@ == old(self).entries@,
                forall|j: int|
                    0 <= j < i ==> (#[trigger] self.entries@[j]).name_spec()
                        != maintenance_type.name_spec(),
            decreases n - i,
        {
            if str_eq(self.entries[i].name(), maintenance_type.name()) {
                self.entries.remove(i);
                proof {
                    assert((old(self).catalog()[i as int]).name_spec()
                        == maintenance_type.name_spec());
                    assert(self.entries@ == old(self).entries@.remove(i as int));
                }
                return Ok(true);
            }
            i = i + 1;
        }
        Ok(false)
    }
}

} // verus!
