//! The persistence port for maintenance types: a capability interface any
//! concrete store satisfies. The port reports only opaque store failures;
//! a missing row is surfaced by the use case after a lookup, not by the
//! port.
use vstd::prelude::*;

use crate::maintenance_type::MaintenanceType;
use crate::maintenance_type::MaintenanceTypeView;

verus! {

#[derive(Debug)]
pub enum MaintenanceTypeRepositoryError {
    Database(String),
}

/// Some stored view carries this name.
pub open spec fn views_contain_name(vs: Seq<MaintenanceTypeView>, name: Seq<char>) -> bool {
    exists|i: int| 0 <= i < vs.len() && #[trigger] vs[i].name@ == name
}

/// Some stored view carries this identifier.
pub open spec fn views_contain_id(vs: Seq<MaintenanceTypeView>, id: i32) -> bool {
    exists|i: int| 0 <= i < vs.len() && #[trigger] vs[i].id == id
}

/// The port every maintenance-type store implements. The stored views, in
/// storage order, are the port's abstract state; each method says how the
/// state and the result relate on success, and promises nothing of a
/// store failure.
pub trait MaintenanceTypeRepository: Sized {
    /// The stored views, in storage order.
    spec fn views(&self) -> Seq<MaintenanceTypeView>;

    /// Stores a new maintenance type attributed to the caller; on success
    /// the store has gained exactly the returned view, at the end, and
    /// the view carries the given name, description and creator.
    fn create(&mut self, maintenance_type: MaintenanceType, user_id: u128) -> (r: Result<
        MaintenanceTypeView,
        MaintenanceTypeRepositoryError,
    >)
        ensures
            r matches Ok(v) ==> {
                &&& final(self).views() == old(self).views().push(v)
                &&& v.name@ == maintenance_type.name_spec()
                &&& v.description@ == maintenance_type.description_spec()
                &&& v.created_by.id == user_id
                &&& v.updated_by.id == user_id
                &&& v.created_at == v.updated_at
            },
    ;

    /// Looks a maintenance type up by identifier; finds one exactly when
    /// the store holds that identifier.
    fn get_by_id(&self, id: i32) -> (r: Result<
        Option<MaintenanceType>,
        MaintenanceTypeRepositoryError,
    >)
        ensures
            r matches Ok(Some(t)) ==> exists|i: int|
                0 <= i < self.views().len() && (#[trigger] self.views()[i]).id == id
                    && t.name_spec() == self.views()[i].name@ && t.description_spec()
                    == self.views()[i].description@,
            r matches Ok(None) ==> !views_contain_id(self.views(), id),
    ;

    /// Looks a view up by identifier; finds one exactly when the store
    /// holds that identifier.
    fn get_view_by_id(&self, id: i32) -> (r: Result<
        Option<MaintenanceTypeView>,
        MaintenanceTypeRepositoryError,
    >)
        ensures
            r matches Ok(Some(v)) ==> v.id == id && self.views().contains(v),
            r matches Ok(None) ==> !views_contain_id(self.views(), id),
    ;

    /// All stored views, in storage order.
    fn get_all_view(&self) -> (r: Result<Vec<MaintenanceTypeView>, MaintenanceTypeRepositoryError>)
        ensures
            r matches Ok(vs) ==> vs@ == self.views(),
    ;

    /// Whether any stored view carries this name, character for
    /// character.
    fn exists_by_name(&self, name: &str) -> (r: Result<bool, MaintenanceTypeRepositoryError>)
        ensures
            r matches Ok(b) ==> b == views_contain_name(self.views(), name@),
    ;

    /// Overwrites the name and description of the view with this
    /// identifier, attributed to the caller; on success exactly that view
    /// changed, and the returned view is the new one.
    fn update(&mut self, id: i32, maintenance_type: MaintenanceType, user_id: u128) -> (r: Result<
        MaintenanceTypeView,
        MaintenanceTypeRepositoryError,
    >)
        ensures
            r matches Ok(v) ==> {
                &&& v.id == id
                &&& v.name@ == maintenance_type.name_spec()
                &&& v.description@ == maintenance_type.description_spec()
                &&& v.updated_by.id == user_id
                &&& exists|i: int|
                    0 <= i < old(self).views().len() && (#[trigger] old(self).views()[i]).id == id
                        && final(self).views() == old(self).views().update(i, v)
            },
    ;

    /// Removes the view with this identifier; on success exactly that
    /// view is gone.
    fn delete(&mut self, maintenance_type: MaintenanceType, id: i32, user_id: u128) -> (r: Result<
        (),
        MaintenanceTypeRepositoryError,
    >)
        ensures
            r is Ok ==> exists|i: int|
                0 <= i < old(self).views().len() && (#[trigger] old(self).views()[i]).id == id
                    && final(self).views() == old(self).views().remove(i),
    ;
}

} // verus!
