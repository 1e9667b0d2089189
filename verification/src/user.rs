//! Users of the system, as the persistence layer hands them to the core.
use vstd::prelude::*;

use crate::email::Email;
use crate::ids::UserId;
use crate::vehicle::VehicleIdentity;

verus! {

/// A user record: identity, account name and contact data.
#[derive(Debug)]
pub struct UserIdentity {
    /// The unique identifier for the user.
    pub id: u128,
    /// The identifier as a value type.
    pub uuid: UserId,
    /// The account name of the user.
    pub username: String,
    /// The email address of the user.
    pub email: Email,
    /// First name of the user.
    pub first_name: String,
    /// Last name of the user.
    pub last_name: String,
}

impl Clone for UserIdentity {
    fn clone(&self) -> (r: Self)
        ensures
            r == self,
    {
        UserIdentity {
            id: self.id,
            uuid: self.uuid,
            username: self.username.clone(),
            email: self.email.clone(),
            first_name: self.first_name.clone(),
            last_name: self.last_name.clone(),
        }
    }
}

/// A driver: a user together with the vehicles assigned to them.
#[derive(Debug)]
pub struct UserDriver {
    /// The unique identifier for the driver.
    pub id: u128,
    /// The identifier of the underlying user.
    pub uuid: u128,
    /// The vehicles assigned to the driver.
    pub vehicle: Vec<VehicleIdentity>,
}

} // verus!
