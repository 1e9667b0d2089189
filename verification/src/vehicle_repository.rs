//! The persistence port for vehicles: a capability interface any concrete
//! store satisfies. Uniqueness of identification number and plate is
//! ultimately the store's constraint; the port reports a conflict it
//! detected, and the use case translates it.
use vstd::prelude::*;

use crate::engine_type::engine_eq;
use crate::vehicle::VehicleIdentity;
use crate::vehicle_filter::VehicleFilter;

verus! {

#[derive(Debug)]
pub enum VehicleRepositoryError {
    NotFound(u128),
    AlreadyExists(u128),
}

/// Some stored vehicle carries this identifier.
pub open spec fn vehicles_contain_id(vs: Seq<VehicleIdentity>, id: u128) -> bool {
    exists|i: int| 0 <= i < vs.len() && (#[trigger] vs[i]).id == id
}

/// Some stored vehicle carries this identification number or this plate.
pub open spec fn vehicles_contain_vin_or_plate(
    vs: Seq<VehicleIdentity>,
    vin: Seq<char>,
    plate: Seq<char>,
) -> bool {
    exists|i: int|
        0 <= i < vs.len() && ((#[trigger] vs[i]).vin@ == vin || vs[i].license_plate@ == plate)
}

/// A stored vehicle matches a filter when it agrees with every field the
/// filter fixes.
pub open spec fn identity_matches_filter(v: VehicleIdentity, f: VehicleFilter) -> bool {
    &&& (f.uuid matches Some(u) ==> v.id == u)
    &&& (f.make matches Some(m) ==> v.make@ == m@)
    &&& (f.model matches Some(m) ==> v.model@ == m@)
    &&& (f.year matches Some(y) ==> v.year == y)
    &&& (f.vin matches Some(x) ==> v.vin@ == x@)
    &&& (f.license_plate matches Some(p) ==> v.license_plate@ == p@)
    &&& (f.engine_type matches Some(e) ==> engine_eq(v.engine_type, e))
}

/// The port every vehicle store implements. The stored vehicles, in
/// storage order, are the port's abstract state.
pub trait VehicleRepository: Sized {
    /// The stored vehicles, in storage order.
    spec fn vehicles(&self) -> Seq<VehicleIdentity>;

    /// Stores a validated vehicle; on success the store has gained
    /// exactly it, at the end, and echoes it back. A conflict the store
    /// detected names an identifier and implies a stored vehicle already
    /// carries the same identification number or plate.
    fn create(&mut self, vehicle: VehicleIdentity) -> (r: Result<
        VehicleIdentity,
        VehicleRepositoryError,
    >)
        ensures
            r matches Ok(v) ==> {
                &&& v == vehicle
                &&& final(self).vehicles() == old(self).vehicles().push(vehicle)
            },
            r matches Err(VehicleRepositoryError::AlreadyExists(_))
                ==> vehicles_contain_vin_or_plate(
                old(self).vehicles(),
                vehicle.vin@,
                vehicle.license_plate@,
            ),
    ;

    /// The first stored vehicle agreeing with the filter, if any agrees.
    fn find_by_filter(&self, filter: VehicleFilter) -> (r: Result<
        Option<VehicleIdentity>,
        VehicleRepositoryError,
    >)
        ensures
            r matches Ok(Some(v)) ==> self.vehicles().contains(v) && identity_matches_filter(
                v,
                filter,
            ),
            r matches Ok(None) ==> forall|i: int|
                0 <= i < self.vehicles().len() ==> !identity_matches_filter(
                    #[trigger] self.vehicles()[i],
                    filter,
                ),
    ;

    /// The stored vehicle with this identifier, if the store holds it.
    fn find_by_id(&self, id: u128) -> (r: Result<
        Option<VehicleIdentity>,
        VehicleRepositoryError,
    >)
        ensures
            r matches Ok(Some(v)) ==> v.id == id && self.vehicles().contains(v),
            r matches Ok(None) ==> !vehicles_contain_id(self.vehicles(), id),
    ;

    /// All stored vehicles, in storage order.
    fn find_all(&self) -> (r: Result<Vec<VehicleIdentity>, VehicleRepositoryError>)
        ensures
            r matches Ok(vs) ==> vs@ == self.vehicles(),
    ;

    /// Whether any stored vehicle carries this identification number or
    /// this plate, character for character.
    fn exists_by_vin_or_license_plate(&self, vin: &str, license_plate: &str) -> (r: Result<
        bool,
        VehicleRepositoryError,
    >)
        ensures
            r matches Ok(b) ==> b == vehicles_contain_vin_or_plate(
                self.vehicles(),
                vin@,
                license_plate@,
            ),
    ;

    /// Removes the vehicle with this identifier; reports whether one was
    /// there.
    fn delete(&mut self, id: u128) -> (r: Result<bool, VehicleRepositoryError>)
        ensures
            r matches Ok(true) ==> exists|i: int|
                0 <= i < old(self).vehicles().len() && (#[trigger] old(self).vehicles()[i]).id
                    == id && final(self).vehicles() == old(self).vehicles().remove(i),
            r matches Ok(false) ==> !vehicles_contain_id(old(self).vehicles(), id)
                && final(self).vehicles() == old(self).vehicles(),
    ;
}

} // verus!
