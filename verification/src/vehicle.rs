//! A registered vehicle: validated value objects plus identity and audit
//! moments.
use vstd::prelude::*;

use crate::clock::current_year;
use crate::clock::now_timestamp_millis;
use crate::engine_type::EngineType;
use crate::engine_type::EngineTypeError;
use crate::engine_type::engine_parsed;
use crate::ids::generate_uuid;
use crate::license_plate::LicensePlate;
use crate::license_plate::LicensePlateError;
use crate::text::seq_to_upper;
use crate::text::trimmed;
use crate::vehicle_status::VehicleStatusIdentity;
use crate::vin::VehicleVin;
use crate::vin::VehicleVinError;
use crate::vin::vin_normalize;
use crate::vin::vin_valid;

verus! {

/// The earliest model year the system accepts.
pub const MIN_VEHICLE_YEAR: u16 = 1950;

/// The method of maintenance tracking of a vehicle: by distance driven or
/// by hours the engine ran.
#[derive(Debug, PartialEq, Eq)]
pub enum TrackingType {
    Kilometers,
    EngineHours,
}

impl Clone for TrackingType {
    fn clone(&self) -> (r: Self)
        ensures
            r == self,
    {
        match self {
            TrackingType::Kilometers => TrackingType::Kilometers,
            TrackingType::EngineHours => TrackingType::EngineHours,
        }
    }
}

/// A stored vehicle: identity, descriptive fields, validated value
/// objects, and audit moments in milliseconds since the epoch.
#[derive(Debug)]
pub struct VehicleIdentity {
    /// The unique identifier of the vehicle.
    pub id: u128,
    /// The make of the vehicle.
    pub make: String,
    /// The model of the vehicle.
    pub model: String,
    /// The year the vehicle was manufactured.
    pub year: u16,
    /// The vehicle identification number.
    pub vin: VehicleVin,
    /// The license plate of the vehicle.
    pub license_plate: LicensePlate,
    /// The engine type of the vehicle.
    pub engine_type: EngineType,
    /// When the vehicle was registered.
    pub created_at: i64,
    /// When the vehicle was last updated.
    pub updated_at: i64,
}

impl Clone for VehicleIdentity {
    fn clone(&self) -> (r: Self)
        ensures
            r == self,
    {
        VehicleIdentity {
            id: self.id,
            make: self.make.clone(),
            model: self.model.clone(),
            year: self.year,
            vin: self.vin.clone(),
            license_plate: self.license_plate.clone(),
            engine_type: self.engine_type.clone(),
            created_at: self.created_at,
            updated_at: self.updated_at,
        }
    }
}

/// The raw data a vehicle is registered from.
#[derive(Debug)]
pub struct NewVehicle {
    pub make: String,
    pub model: String,
    pub year: u16,
    pub vin: String,
    pub license_plate: String,
    pub engine_type: String,
}

impl Clone for NewVehicle {
    fn clone(&self) -> (r: Self)
        ensures
            r == self,
    {
        NewVehicle {
            make: self.make.clone(),
            model: self.model.clone(),
            year: self.year,
            vin: self.vin.clone(),
            license_plate: self.license_plate.clone(),
            engine_type: self.engine_type.clone(),
        }
    }
}

#[derive(Debug)]
pub enum VehicleError {
    InvalidYear(u16),
    InvalidVin(VehicleVinError),
    InvalidLicensePlate(LicensePlateError),
    InvalidEngineType(EngineTypeError),
}

/// What a successfully built vehicle holds, given the raw data, the fresh
/// identifier, the registration moment and the year bound in force.
pub open spec fn vehicle_built_from(
    v: Vehicle,
    data: NewVehicle,
    id: u128,
    now_millis: i64,
) -> bool {
    &&& v.identity.id == id
    &&& v.identity.make == data.make
    &&& v.identity.model == data.model
    &&& v.identity.year == data.year
    &&& v.identity.vin@ == vin_normalize(data.vin@)
    &&& v.identity.license_plate@ == seq_to_upper(trimmed(data.license_plate@))
    &&& engine_parsed(v.identity.engine_type, data.engine_type@)
    &&& v.identity.created_at == now_millis
    &&& v.identity.updated_at == now_millis
    &&& v.latest_status is None
}

/// A vehicle together with its latest status, if one was recorded.
#[derive(Debug)]
pub struct Vehicle {
    /// The stored vehicle fields.
    pub identity: VehicleIdentity,
    /// The latest status of the vehicle.
    pub latest_status: Option<VehicleStatusIdentity>,
}

impl Vehicle {
    /// Validates raw registration data against a given year bound and
    /// builds the vehicle with the given identifier and moment; rejects a
    /// year out of bounds, then a bad identification number, then a blank
    /// engine type. The plate only normalizes and cannot fail.
    pub fn build(data: NewVehicle, id: u128, now_millis: i64, year_bound: i32) -> (r: Result<
        Vehicle,
        VehicleError,
    >)
        ensures
            r is Ok <==> (MIN_VEHICLE_YEAR <= data.year && data.year as int <= year_bound as int
                && vin_valid(vin_normalize(data.vin@)) && trimmed(data.engine_type@).len() != 0),
            r matches Ok(v) ==> vehicle_built_from(v, data, id, now_millis),
            !(MIN_VEHICLE_YEAR <= data.year && data.year as int <= year_bound as int) ==> r
                == Err::<Vehicle, _>(VehicleError::InvalidYear(data.year)),
            (MIN_VEHICLE_YEAR <= data.year && data.year as int <= year_bound as int) && !vin_valid(
                vin_normalize(data.vin@),
            ) ==> r matches Err(VehicleError::InvalidVin(_)),
            (MIN_VEHICLE_YEAR <= data.year && data.year as int <= year_bound as int) && vin_valid(
                vin_normalize(data.vin@),
            ) && trimmed(data.engine_type@).len() == 0 ==> r matches Err(
                VehicleError::InvalidEngineType(EngineTypeError::Empty),
            ),
            r matches Err(VehicleError::InvalidVin(_)) ==> !vin_valid(vin_normalize(data.vin@)),
            r matches Err(VehicleError::InvalidEngineType(_)) ==> trimmed(
                data.engine_type@,
            ).len() == 0,
            r matches Err(VehicleError::InvalidYear(y)) ==> y == data.year && !(MIN_VEHICLE_YEAR
                <= data.year && data.year as int <= year_bound as int),
    {
        if !(MIN_VEHICLE_YEAR <= data.year && data.year as i32 <= year_bound) {
            return Err(VehicleError::InvalidYear(data.year));
        }
        let vin = match VehicleVin::new(data.vin.as_str()) {
            Ok(v) => v,
            Err(e) => {
                return Err(VehicleError::InvalidVin(e));
            },
        };
        let license_plate = match LicensePlate::new(data.license_plate.as_str()) {
            Ok(p) => p,
            Err(e) => {
                return Err(VehicleError::InvalidLicensePlate(e));
            },
        };
        let engine_type = match EngineType::new(data.engine_type.as_str()) {
            Ok(t) => t,
            Err(e) => {
                return Err(VehicleError::InvalidEngineType(e));
            },
        };
        Ok(
            Vehicle {
                identity: VehicleIdentity {
                    id,
                    make: data.make,
                    model: data.model,
                    year: data.year,
                    vin,
                    license_plate,
                    engine_type,
                    created_at: now_millis,
                    updated_at: now_millis,
                },
                latest_status: None,
            },
        )
    }

    /// Registers a vehicle: draws a fresh identifier, the current moment
    /// and the current year, and builds from them. Whatever the clock and
    /// generator returned, a success is built from the raw data as
    /// `build` promises, and a rejected identification number, blank
    /// engine type or out-of-range year is reported under its own error.
    pub fn new(data: NewVehicle) -> (r: Result<Vehicle, VehicleError>)
        ensures
            r matches Ok(v) ==> {
                &&& v.identity.make == data.make
                &&& v.identity.model == data.model
                &&& v.identity.year == data.year
                &&& MIN_VEHICLE_YEAR <= data.year
                &&& v.identity.vin@ == vin_normalize(data.vin@)
                &&& vin_valid(vin_normalize(data.vin@))
                &&& v.identity.license_plate@ == seq_to_upper(trimmed(data.license_plate@))
                &&& trimmed(data.engine_type@).len() != 0
                &&& engine_parsed(v.identity.engine_type, data.engine_type@)
                &&& v.identity.created_at == v.identity.updated_at
                &&& v.latest_status is None
            },
            MIN_VEHICLE_YEAR <= data.year && !vin_valid(vin_normalize(data.vin@)) ==> (r matches
                Err(VehicleError::InvalidVin(_)) || r matches Err(VehicleError::InvalidYear(_))),
            MIN_VEHICLE_YEAR <= data.year && vin_valid(vin_normalize(data.vin@)) && trimmed(
                data.engine_type@,
            ).len() == 0 ==> (r matches Err(VehicleError::InvalidEngineType(EngineTypeError::Empty))
                || r matches Err(VehicleError::InvalidYear(_))),
            data.year < MIN_VEHICLE_YEAR ==> r == Err::<Vehicle, _>(
                VehicleError::InvalidYear(data.year),
            ),
            r matches Err(VehicleError::InvalidVin(_)) ==> !vin_valid(vin_normalize(data.vin@)),
            r matches Err(VehicleError::InvalidEngineType(_)) ==> trimmed(
                data.engine_type@,
            ).len() == 0,
            r matches Err(VehicleError::InvalidYear(y)) ==> y == data.year,
    {
        let id = generate_uuid();
        let now = now_timestamp_millis();
        let year_bound = current_year();
        Self::build(data, id, now, year_bound)
    }

    /// The unique identifier of the vehicle.
    pub fn uuid(&self) -> (r: u128)
        ensures
            r == self.identity.id,
    {
        self.identity.id
    }

    /// The make of the vehicle.
    pub fn make(&self) -> (r: &str)
        ensures
            r@ == self.identity.make@,
    {
        self.identity.make.as_str()
    }

    /// The model of the vehicle.
    pub fn model(&self) -> (r: &str)
        ensures
            r@ == self.identity.model@,
    {
        self.identity.model.as_str()
    }

    /// The model year of the vehicle.
    pub fn year(&self) -> (r: u16)
        ensures
            r == self.identity.year,
    {
        self.identity.year
    }

    /// The vehicle identification number.
    pub fn vin(&self) -> (r: &VehicleVin)
        ensures
            r == self.identity.vin,
    {
        &self.identity.vin
    }

    /// The license plate.
    pub fn license_plate(&self) -> (r: &LicensePlate)
        ensures
            r == self.identity.license_plate,
    {
        &self.identity.license_plate
    }

    /// The engine type.
    pub fn engine_type(&self) -> (r: &EngineType)
        ensures
            r == self.identity.engine_type,
    {
        &self.identity.engine_type
    }

    /// When the vehicle was registered.
    pub fn created_at(&self) -> (r: i64)
        ensures
            r == self.identity.created_at,
    {
        self.identity.created_at
    }

    /// When the vehicle was last updated.
    pub fn updated_at(&self) -> (r: i64)
        ensures
            r == self.identity.updated_at,
    {
        self.identity.updated_at
    }
}

} // verus!
