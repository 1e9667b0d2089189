//! A maintenance type: a named, described category of maintenance action,
//! and its read view enriched with audit data.
use vstd::prelude::*;

use crate::user::UserIdentity;

verus! {

#[derive(Debug)]
pub enum MaintenanceTypeError {
    EmptyField,
    InvalidData(String),
}

/// A maintenance type under construction or update: a non-empty name and
/// a free description.
#[derive(Debug)]
pub struct MaintenanceType {
    name: String,
    description: String,
}

impl Clone for MaintenanceType {
    fn clone(&self) -> (r: Self)
        ensures
            r == self,
    {
        MaintenanceType { name: self.name.clone(), description: self.description.clone() }
    }
}

impl MaintenanceType {
    /// The name, for specifications.
    pub closed spec fn name_spec(&self) -> Seq<char> {
        self.name@
    }

    /// The description, for specifications.
    pub closed spec fn description_spec(&self) -> Seq<char> {
        self.description@
    }

    /// Accepts any description but insists on a non-empty name.
    pub fn new(name: String, description: String) -> (r: Result<Self, MaintenanceTypeError>)
        ensures
            r is Ok <==> name@.len() != 0,
            r matches Ok(t) ==> t.name_spec() == name@ && t.description_spec() == description@,
            name@.len() == 0 ==> r matches Err(MaintenanceTypeError::EmptyField),
    {
        if name.as_str().is_empty() {
            return Err(MaintenanceTypeError::EmptyField);
        }
        Ok(MaintenanceType { name, description })
    }

    /// Rebuilds a value from a trusted store row, which was validated
    /// when it was first stored.
    pub(crate) fn from_parts(name: String, description: String) -> (r: Self)
        ensures
            r.name_spec() == name@,
            r.description_spec() == description@,
    {
        MaintenanceType { name, description }
    }

    /// The name of the maintenance type.
    pub fn name(&self) -> (r: &str)
        ensures
            r@ == self.name_spec(),
    {
        self.name.as_str()
    }

    /// The description of the maintenance type.
    pub fn description(&self) -> (r: &str)
        ensures
            r@ == self.description_spec(),
    {
        self.description.as_str()
    }

    /// Replaces the name; the update use case alone calls this.
    pub fn set_name(&mut self, name: String)
        ensures
            final(self).name_spec() == name@,
            final(self).description_spec() == old(self).description_spec(),
    {
        self.name = name;
    }

    /// Replaces the description; the update use case alone calls this.
    pub fn set_description(&mut self, description: String)
        ensures
            final(self).description_spec() == description@,
            final(self).name_spec() == old(self).name_spec(),
    {
        self.description = description;
    }
}

/// A read view of a stored maintenance type, enriched with the creating
/// and updating users.
#[derive(Debug)]
pub struct MaintenanceTypeView {
    /// The unique identifier for the maintenance type.
    pub id: i32,
    /// The name of the maintenance type.
    pub name: String,
    /// Description of the maintenance type.
    pub description: String,
    /// When the type was created.
    pub created_at: i64,
    /// The user who created it.
    pub created_by: UserIdentity,
    /// When the type was last updated.
    pub updated_at: i64,
    /// The user who last updated it.
    pub updated_by: UserIdentity,
}

impl Clone for MaintenanceTypeView {
    fn clone(&self) -> (r: Self)
        ensures
            r == self,
    {
        MaintenanceTypeView {
            id: self.id,
            name: self.name.clone(),
            description: self.description.clone(),
            created_at: self.created_at,
            created_by: self.created_by.clone(),
            updated_at: self.updated_at,
            updated_by: self.updated_by.clone(),
        }
    }
}

} // verus!
