//! Listing every registered vehicle: the identities come from the port
//! and are wrapped as vehicles without a latest status.
use vstd::prelude::*;

use crate::vehicle::Vehicle;
use crate::vehicle_repository::VehicleRepository;
use crate::vehicle_repository::VehicleRepositoryError;

verus! {

#[derive(Debug)]
pub enum GetAllVehicleError {
    RepositoryError(VehicleRepositoryError),
}

/// Lists the whole vehicle store, in storage order.
pub struct GetAllVehicleUseCase;

impl GetAllVehicleUseCase {
    pub fn new() -> Self {
        GetAllVehicleUseCase
    }

    /// On success the result wraps every stored identity, in order, each
    /// without a latest status.
    pub fn execute<R: VehicleRepository>(&self, repo: &R) -> (r: Result<Vec<Vehicle>, GetAllVehicleError>)
        ensures
            r matches Ok(vs) ==> {
                &&& vs@.len() == repo.vehicles().len()
                &&& forall|i: int|
                    0 <= i < repo.vehicles().len() ==> (#[trigger] vs@[i]).identity
                        == repo.vehicles()[i] && vs@[i].latest_status is None
            },
    {
        let identities = match repo.find_all() {
            Ok(vs) => vs,
            Err(e) => {
                return Err(GetAllVehicleError::RepositoryError(e));
            },
        };
        let n = identities.len();
        let mut vehicles: Vec<Vehicle> = Vec::new();
        let mut i: usize = 0;
        while i < n
            invariant
                n == identities@.len(),
                identities@ == repo.vehicles(),
                0 <= i <= n,
                vehicles@.len() == i,
                forall|j: int|
                    0 <= j < i ==> (#[trigger] vehicles@[j]).identity == identities@[j]
                        && vehicles@[j].latest_status is None,
            decreases n - i,
        {
            vehicles.push(Vehicle { identity: identities[i].clone(), latest_status: None });
            i = i + 1;
        }
        Ok(vehicles)
    }
}

} // verus!
