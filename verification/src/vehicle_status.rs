//! The status log of a vehicle: odometer and meter readings taken at a
//! moment, attributed to a user.
use vstd::prelude::*;

use crate::user::UserIdentity;
use crate::vehicle::VehicleIdentity;

verus! {

/// One status reading as stored: meters, fuel, notes, and audit moments
/// in milliseconds since the epoch.
#[derive(Debug)]
pub struct VehicleStatusIdentity {
    /// The unique identifier for the vehicle status.
    pub id: i32,
    /// The unique identifier for the vehicle.
    pub vehicle_id: u128,
    /// The unique identifier for the user who recorded this status.
    pub performed_by: u128,
    /// When the status was taken.
    pub performed_at: i64,
    /// Odometer reading at the time of the status.
    pub odometer: i32,
    /// Engine hour meter reading at the time of the status, if tracked.
    pub engine_hour_meter: Option<i32>,
    /// Fuel level at the time of the status, if tracked.
    pub fuel_level: Option<i32>,
    /// Notes or comments about the vehicle status.
    pub notes: String,
    /// When the record was created.
    pub created_at: i64,
    /// When the record was last updated.
    pub updated_at: i64,
}

impl Clone for VehicleStatusIdentity {
    fn clone(&self) -> (r: Self)
        ensures
            r == self,
    {
        VehicleStatusIdentity {
            id: self.id,
            vehicle_id: self.vehicle_id,
            performed_by: self.performed_by,
            performed_at: self.performed_at,
            odometer: self.odometer,
            engine_hour_meter: self.engine_hour_meter,
            fuel_level: self.fuel_level,
            notes: self.notes.clone(),
            created_at: self.created_at,
            updated_at: self.updated_at,
        }
    }
}

/// A status reading joined with the vehicle and the recording user.
#[derive(Debug)]
pub struct VehicleStatus {
    /// The stored status fields.
    pub identity: VehicleStatusIdentity,
    /// The vehicle the status belongs to.
    pub vehicle: VehicleIdentity,
    /// The user who recorded the status.
    pub performed_by: UserIdentity,
}

} // verus!
