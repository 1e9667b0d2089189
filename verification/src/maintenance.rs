//! A maintenance rule: links a maintenance type and a vehicle, carries an
//! interval, and two ordered alert thresholds.
use vstd::prelude::*;

use crate::clock::now_timestamp_millis;
use crate::interval_type::MaintenanceIntervalType;
use crate::maintenance_type::MaintenanceType;
use crate::user::UserIdentity;
use crate::vehicle::VehicleIdentity;

verus! {

/// The thresholds a rule may carry: the red one at most one hundred
/// percent, the yellow one at most the red one.
pub open spec fn thresholds_ok(red: u32, yellow: u32) -> bool {
    red <= 100 && yellow <= red
}

/// The fixed interval-type strings a rule accepts.
pub open spec fn interval_text_recognized(s: Seq<char>) -> bool {
    s == "Kilometers"@ || s == "Engine Hours"@ || s == "Years"@
}

/// A stored maintenance rule.
#[derive(Debug)]
pub struct MaintenanceIdentity {
    /// The unique identifier for the rule.
    pub id: i32,
    /// The vehicle the rule applies to.
    pub vehicle_id: u128,
    /// The maintenance type the rule schedules.
    pub maintenance_type_id: i32,
    /// The unit the interval is measured in.
    pub interval_type: MaintenanceIntervalType,
    /// Interval value in that unit.
    pub interval_value: u32,
    /// Red alert threshold, in percent.
    pub red_threshold: u32,
    /// Yellow alert threshold, in percent.
    pub yellow_threshold: u32,
    /// When the rule was created.
    pub created_at: i64,
    /// Who created the rule.
    pub created_by: u128,
    /// When the rule was last updated.
    pub updated_at: i64,
    /// Who last updated the rule.
    pub updated_by: u128,
}

impl Clone for MaintenanceIdentity {
    fn clone(&self) -> (r: Self)
        ensures
            r == self,
    {
        MaintenanceIdentity {
            id: self.id,
            vehicle_id: self.vehicle_id,
            maintenance_type_id: self.maintenance_type_id,
            interval_type: self.interval_type.clone(),
            interval_value: self.interval_value,
            red_threshold: self.red_threshold,
            yellow_threshold: self.yellow_threshold,
            created_at: self.created_at,
            created_by: self.created_by,
            updated_at: self.updated_at,
            updated_by: self.updated_by,
        }
    }
}

/// The raw data a maintenance rule is built from.
#[derive(Debug)]
pub struct NewMaintenance {
    /// The unit the interval is measured in, as its display string.
    pub interval_type: String,
    /// Interval value in that unit.
    pub interval_value: u32,
    /// Red alert threshold, in percent.
    pub red_threshold: u32,
    /// Yellow alert threshold, in percent.
    pub yellow_threshold: u32,
}

#[derive(Debug)]
pub enum MaintenanceError {
    InvalidThreshold(String),
    UnknownIntervalType(String),
}

/// A maintenance rule joined with its type and vehicle.
#[derive(Debug)]
pub struct Maintenance {
    /// The stored rule fields.
    pub identity: MaintenanceIdentity,
    /// The maintenance type the rule schedules.
    pub maintenance_type: MaintenanceType,
    /// The vehicle the rule applies to.
    pub vehicle: VehicleIdentity,
}

impl Maintenance {
    /// Validates thresholds and the interval-type string and builds the
    /// rule, attributed to its creator, stamped with the current moment;
    /// the stored identifier is left at zero for the store to assign.
    pub fn new(
        maintenance_type: MaintenanceType,
        maintenance_type_id: i32,
        vehicle: VehicleIdentity,
        created_by: UserIdentity,
        data: NewMaintenance,
    ) -> (r: Result<Self, MaintenanceError>)
        ensures
            r is Ok <==> (thresholds_ok(data.red_threshold, data.yellow_threshold)
                && interval_text_recognized(data.interval_type@)),
            !thresholds_ok(data.red_threshold, data.yellow_threshold) ==> r matches Err(
                MaintenanceError::InvalidThreshold(_),
            ),
            thresholds_ok(data.red_threshold, data.yellow_threshold) && !interval_text_recognized(
                data.interval_type@,
            ) ==> (r matches Err(MaintenanceError::UnknownIntervalType(t)) && t@
                == data.interval_type@),
            r matches Ok(m) ==> {
                &&& m.identity.id == 0
                &&& m.identity.vehicle_id == vehicle.id
                &&& m.identity.maintenance_type_id == maintenance_type_id
                &&& data.interval_type@ == "Kilometers"@ ==> m.identity.interval_type
                    is Kilometers
                &&& data.interval_type@ == "Engine Hours"@ ==> m.identity.interval_type
                    is EngineHours
                &&& data.interval_type@ == "Years"@ ==> m.identity.interval_type is Years
                &&& m.identity.interval_value == data.interval_value
                &&& m.identity.red_threshold == data.red_threshold
                &&& m.identity.yellow_threshold == data.yellow_threshold
                &&& m.identity.created_by == created_by.id
                &&& m.identity.updated_by == created_by.id
                &&& m.identity.created_at == m.identity.updated_at
                &&& m.maintenance_type == maintenance_type
                &&& m.vehicle == vehicle
            },
    {
        if data.red_threshold > 100 || data.yellow_threshold > data.red_threshold {
            return Err(
                MaintenanceError::InvalidThreshold(
                    String::from_str("Threshold values must be between 0 and 100"),
                ),
            );
        }
        let interval_type = match MaintenanceIntervalType::from_str(data.interval_type.as_str()) {
            Some(t) => t,
            None => {
                return Err(MaintenanceError::UnknownIntervalType(data.interval_type));
            },
        };
        let now = now_timestamp_millis();
        Ok(
            Maintenance {
                identity: MaintenanceIdentity {
                    id: 0,
                    vehicle_id: vehicle.id,
                    maintenance_type_id,
                    interval_type,
                    interval_value: data.interval_value,
                    red_threshold: data.red_threshold,
                    yellow_threshold: data.yellow_threshold,
                    created_at: now,
                    created_by: created_by.id,
                    updated_at: now,
                    updated_by: created_by.id,
                },
                maintenance_type,
                vehicle,
            },
        )
    }
}

} // verus!
