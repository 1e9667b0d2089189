//! The elder, name-keyed persistence port for the maintenance-type
//! catalog: plain values in, plain values out, no read views. The port
//! reports only opaque store failures.
use vstd::prelude::*;

use crate::maintenance_type::MaintenanceType;

verus! {

#[derive(Debug)]
pub enum MaintenanceRepositoryError {
    Database(String),
}

/// Some catalog entry carries this name.
pub open spec fn catalog_contains_name(ts: Seq<MaintenanceType>, name: Seq<char>) -> bool {
    exists|i: int| 0 <= i < ts.len() && (#[trigger] ts[i]).name_spec() == name
}

/// The port a plain maintenance-type catalog implements. The stored
/// types, in storage order, are its abstract state; entries are told
/// apart by name.
pub trait MaintenanceRepository: Sized {
    /// The stored types, in storage order.
    spec fn catalog(&self) -> Seq<MaintenanceType>;

    /// Stores a maintenance type and echoes it; on success the catalog
    /// gained exactly it, at the end.
    fn create(&mut self, maintenance_type: MaintenanceType) -> (r: Result<
        MaintenanceType,
        MaintenanceRepositoryError,
    >)
        ensures
            r matches Ok(t) ==> {
                &&& t.name_spec() == maintenance_type.name_spec()
                &&& t.description_spec() == maintenance_type.description_spec()
                &&& final(self).catalog() == old(self).catalog().push(maintenance_type)
            },
    ;

    /// The stored type under this store-assigned identifier, if the
    /// store knows it; how identifiers map to entries is the store's
    /// own.
    fn get_by_id(&self, id: i32) -> (r: Result<
        Option<MaintenanceType>,
        MaintenanceRepositoryError,
    >)
        ensures
            r matches Ok(Some(t)) ==> exists|i: int|
                0 <= i < self.catalog().len() && (#[trigger] self.catalog()[i]).name_spec()
                    == t.name_spec() && self.catalog()[i].description_spec()
                    == t.description_spec(),
    ;

    /// All stored types, in storage order.
    fn get_all(&self) -> (r: Result<Vec<MaintenanceType>, MaintenanceRepositoryError>)
        ensures
            r matches Ok(ts) ==> ts@ == self.catalog(),
    ;

    /// Overwrites the entry carrying the given type's name; on success
    /// exactly that entry changed.
    fn update(&mut self, maintenance_type: MaintenanceType) -> (r: Result<
        MaintenanceType,
        MaintenanceRepositoryError,
    >)
        ensures
            r matches Ok(t) ==> {
                &&& t.name_spec() == maintenance_type.name_spec()
                &&& t.description_spec() == maintenance_type.description_spec()
                &&& exists|i: int|
                    0 <= i < old(self).catalog().len()
                        && (#[trigger] old(self).catalog()[i]).name_spec()
                        == maintenance_type.name_spec()
                        && final(self).catalog() == old(self).catalog().update(
                        i,
                        maintenance_type,
                    )
            },
    ;

    /// Removes the entry carrying the given type's name; reports whether
    /// one was there.
    fn delete(&mut self, maintenance_type: MaintenanceType) -> (r: Result<
        bool,
        MaintenanceRepositoryError,
    >)
        ensures
            r matches Ok(true) ==> exists|i: int|
                0 <= i < old(self).catalog().len()
                    && (#[trigger] old(self).catalog()[i]).name_spec()
                    == maintenance_type.name_spec()
                    && final(self).catalog() == old(self).catalog().remove(i),
            r matches Ok(false) ==> !catalog_contains_name(
                old(self).catalog(),
                maintenance_type.name_spec(),
            ) && final(self).catalog() == old(self).catalog(),
    ;
}

} // verus!
