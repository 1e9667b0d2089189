//! A log entry for a maintenance action taken on a vehicle. Records carry
//! a globally unique identifier, since they may originate from distributed
//! sources.
use vstd::prelude::*;

use crate::clock::now_timestamp_millis;
use crate::ids::generate_uuid;
use crate::maintenance::MaintenanceIdentity;
use crate::user::UserIdentity;
use crate::vehicle::VehicleIdentity;
use crate::vehicle_status::VehicleStatusIdentity;

verus! {

/// One stored maintenance log entry.
#[derive(Debug)]
pub struct MaintenanceRecordIdentity {
    /// The unique identifier for the log entry.
    pub id: u128,
    /// The vehicle the action was taken on.
    pub vehicle_id: u128,
    /// The maintenance rule the action belongs to.
    pub maintenance_id: i32,
    /// The user who performed the action.
    pub user_id: u128,
    /// The vehicle status snapshot at the time of the action.
    pub vehicle_status_id: i32,
    /// When the action was performed.
    pub performed_at: i64,
    /// The details of the action performed.
    pub details: String,
    /// When the entry was created.
    pub created_at: i64,
    /// When the entry was last updated.
    pub updated_at: i64,
}

impl Clone for MaintenanceRecordIdentity {
    fn clone(&self) -> (r: Self)
        ensures
            r == self,
    {
        MaintenanceRecordIdentity {
            id: self.id,
            vehicle_id: self.vehicle_id,
            maintenance_id: self.maintenance_id,
            user_id: self.user_id,
            vehicle_status_id: self.vehicle_status_id,
            performed_at: self.performed_at,
            details: self.details.clone(),
            created_at: self.created_at,
            updated_at: self.updated_at,
        }
    }
}

/// A log entry joined with the entities it references.
#[derive(Debug)]
pub struct MaintenanceRecord {
    /// The stored log-entry fields.
    pub identity: MaintenanceRecordIdentity,
    /// The vehicle the action was taken on.
    pub vehicle: VehicleIdentity,
    /// The maintenance rule the action belongs to.
    pub maintenance: MaintenanceIdentity,
    /// The user who performed the action.
    pub user: UserIdentity,
    /// The vehicle status snapshot at the time of the action.
    pub vehicle_status: VehicleStatusIdentity,
}

impl MaintenanceRecord {
    /// Builds a record over the given entities: the references are taken
    /// from them, the identifier is drawn fresh, and the audit moments
    /// are stamped with the current moment. No field is validated, so
    /// construction cannot fail.
    pub fn new(
        vehicle: VehicleIdentity,
        maintenance: MaintenanceIdentity,
        user: UserIdentity,
        vehicle_status: VehicleStatusIdentity,
        performed_at: i64,
        details: String,
    ) -> (r: Self)
        ensures
            r.identity.vehicle_id == vehicle.id,
            r.identity.maintenance_id == maintenance.id,
            r.identity.user_id == user.id,
            r.identity.vehicle_status_id == vehicle_status.id,
            r.identity.performed_at == performed_at,
            r.identity.details == details,
            r.identity.created_at == r.identity.updated_at,
            r.vehicle == vehicle,
            r.maintenance == maintenance,
            r.user == user,
            r.vehicle_status == vehicle_status,
    {
        let now = now_timestamp_millis();
        let identity = MaintenanceRecordIdentity {
            id: generate_uuid(),
            vehicle_id: vehicle.id,
            maintenance_id: maintenance.id,
            user_id: user.id,
            vehicle_status_id: vehicle_status.id,
            performed_at,
            details,
            created_at: now,
            updated_at: now,
        };
        MaintenanceRecord { identity, vehicle, maintenance, user, vehicle_status }
    }

    /// The unique identifier of the log entry.
    pub fn id(&self) -> (r: u128)
        ensures
            r == self.identity.id,
    {
        self.identity.id
    }

    /// When the action was performed.
    pub fn performed_at(&self) -> (r: i64)
        ensures
            r == self.identity.performed_at,
    {
        self.identity.performed_at
    }

    /// The details of the action performed.
    pub fn details(&self) -> (r: &str)
        ensures
            r@ == self.identity.details@,
    {
        self.identity.details.as_str()
    }
}

} // verus!
