//! Registering a vehicle: validate the raw data into value objects, check
//! uniqueness of identification number and plate through the port, then
//! write through the port. The check and the write are not atomic: the
//! backing store's uniqueness constraint is authoritative, and a conflict
//! it reports is translated to the same error.
use vstd::prelude::*;

use crate::engine_type::engine_parsed;
use crate::text::seq_to_upper;
use crate::text::trimmed;
use crate::vehicle::MIN_VEHICLE_YEAR;
use crate::vehicle::NewVehicle;
use crate::vehicle::Vehicle;
use crate::vehicle::VehicleError;
use crate::vehicle::VehicleIdentity;
use crate::vehicle_repository::VehicleRepository;
use crate::vehicle_repository::VehicleRepositoryError;
use crate::vehicle_repository::vehicles_contain_vin_or_plate;
use crate::vin::vin_normalize;
use crate::vin::vin_valid;

verus! {

/// The raw registration request.
#[derive(Debug)]
pub struct CreateVehicleCmd {
    pub make: String,
    pub model: String,
    pub year: u16,
    pub vin: String,
    pub license_plate: String,
    pub engine_type: String,
}

impl CreateVehicleCmd {
    /// The raw data the domain validates, field for field.
    pub fn try_into(self) -> (r: Result<NewVehicle, VehicleError>)
        ensures
            r matches Ok(n) ==> {
                &&& n.make == self.make
                &&& n.model == self.model
                &&& n.year == self.year
                &&& n.vin == self.vin
                &&& n.license_plate == self.license_plate
                &&& n.engine_type == self.engine_type
            },
            r is Ok,
    {
        Ok(
            NewVehicle {
                make: self.make,
                model: self.model,
                year: self.year,
                vin: self.vin,
                license_plate: self.license_plate,
                engine_type: self.engine_type,
            },
        )
    }
}

/// The raw registration request as a transport decodes it, carrying the
/// caller's identifier in its textual form.
#[derive(Debug)]
pub struct CreateVehicleCommand {
    pub make: String,
    pub model: String,
    pub year: u16,
    pub vin: String,
    pub license_plate: String,
    pub engine_type: String,
    pub user_id: String,
}

impl CreateVehicleCommand {
    /// The raw data the domain validates; the caller identifier serves
    /// audit attribution elsewhere and is dropped here.
    pub fn try_into(self) -> (r: Result<NewVehicle, VehicleError>)
        ensures
            r matches Ok(n) ==> {
                &&& n.make == self.make
                &&& n.model == self.model
                &&& n.year == self.year
                &&& n.vin == self.vin
                &&& n.license_plate == self.license_plate
                &&& n.engine_type == self.engine_type
            },
            r is Ok,
    {
        Ok(
            NewVehicle {
                make: self.make,
                model: self.model,
                year: self.year,
                vin: self.vin,
                license_plate: self.license_plate,
                engine_type: self.engine_type,
            },
        )
    }
}

/// The registered vehicle as a transport renders it.
#[derive(Debug)]
pub struct CreateVehicleResponse {
    pub id: String,
    pub make: String,
    pub model: String,
    pub year: u16,
    pub vin: String,
    pub license_plate: String,
    pub engine_type: String,
    pub created_at: String,
}

#[derive(Debug)]
pub enum CreateVehicleError {
    InvalidInput(VehicleError),
    VehicleAlreadyExists(String),
    RepositoryError(VehicleRepositoryError),
}

/// Registers a vehicle through the repository port.
pub struct CreateVehicleUseCase;

impl CreateVehicleUseCase {
    pub fn new() -> Self {
        CreateVehicleUseCase
    }

    /// A year before the accepted floor, a malformed identification
    /// number or a blank engine type is rejected before the port is
    /// consulted, each under its own error variant (a year the clock
    /// bound rejects shows as an invalid year whatever else is wrong); a
    /// conflict is reported with the normalized identification number,
    /// and only when the store already held that number or that plate;
    /// on success the store gained exactly the returned identity, built
    /// from the validated data.
    pub fn execute<R: VehicleRepository>(&self, repo: &mut R, data: CreateVehicleCmd) -> (r: Result<
        VehicleIdentity,
        CreateVehicleError,
    >)
        ensures
            data.year < MIN_VEHICLE_YEAR ==> r matches Err(
                CreateVehicleError::InvalidInput(VehicleError::InvalidYear(_)),
            ),
            MIN_VEHICLE_YEAR <= data.year && !vin_valid(vin_normalize(data.vin@)) ==> (r matches
                Err(CreateVehicleError::InvalidInput(VehicleError::InvalidVin(_))) || r matches Err(
                CreateVehicleError::InvalidInput(VehicleError::InvalidYear(_)),
            )),
            MIN_VEHICLE_YEAR <= data.year && vin_valid(vin_normalize(data.vin@)) && trimmed(
                data.engine_type@,
            ).len() == 0 ==> (r matches Err(
                CreateVehicleError::InvalidInput(VehicleError::InvalidEngineType(_)),
            ) || r matches Err(CreateVehicleError::InvalidInput(VehicleError::InvalidYear(_)))),
            r matches Err(CreateVehicleError::InvalidInput(VehicleError::InvalidVin(_)))
                ==> !vin_valid(vin_normalize(data.vin@)),
            r matches Err(CreateVehicleError::InvalidInput(VehicleError::InvalidEngineType(_)))
                ==> trimmed(data.engine_type@).len() == 0,
            r matches Err(CreateVehicleError::InvalidInput(_)) ==> final(repo).vehicles() == old(
                repo,
            ).vehicles(),
            r matches Err(CreateVehicleError::VehicleAlreadyExists(t)) ==> {
                &&& t@ == vin_normalize(data.vin@)
                &&& vehicles_contain_vin_or_plate(
                    old(repo).vehicles(),
                    vin_normalize(data.vin@),
                    seq_to_upper(trimmed(data.license_plate@)),
                )
                &&& final(repo).vehicles() == old(repo).vehicles()
            },
            r matches Ok(v) ==> {
                &&& final(repo).vehicles() == old(repo).vehicles().push(v)
                &&& !vehicles_contain_vin_or_plate(
                    old(repo).vehicles(),
                    vin_normalize(data.vin@),
                    seq_to_upper(trimmed(data.license_plate@)),
                )
                &&& v.make == data.make
                &&& v.model == data.model
                &&& v.year == data.year
                &&& v.vin@ == vin_normalize(data.vin@)
                &&& vin_valid(v.vin@)
                &&& v.license_plate@ == seq_to_upper(trimmed(data.license_plate@))
                &&& trimmed(data.engine_type@).len() != 0
                &&& engine_parsed(v.engine_type, data.engine_type@)
            },
    {
        let new_vehicle = match data.try_into() {
            Ok(n) => n,
            Err(e) => {
                return Err(CreateVehicleError::InvalidInput(e));
            },
        };
        let vehicle = match Vehicle::new(new_vehicle) {
            Ok(v) => v,
            Err(e) => {
                return Err(CreateVehicleError::InvalidInput(e));
            },
        };
        match repo.exists_by_vin_or_license_plate(
            vehicle.identity.vin.value(),
            vehicle.identity.license_plate.value(),
        ) {
            Ok(true) => {
                return Err(CreateVehicleError::VehicleAlreadyExists(vehicle.identity.vin.value().to_owned()));
            },
            Ok(false) => {},
            Err(e) => {
                return Err(CreateVehicleError::RepositoryError(e));
            },
        }
        match repo.create(vehicle.identity) {
            Ok(v) => Ok(v),
            Err(e) => Err(CreateVehicleError::RepositoryError(e)),
        }
    }
}

} // verus!
