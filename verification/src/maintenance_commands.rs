//! The command use cases over the maintenance-type catalog: create,
//! update and delete, each following the one pattern — validate, check
//! existence or uniqueness through the port, mutate through the port, map
//! the result to a response.
use vstd::prelude::*;

use crate::auth::AuthenticatedUser;
use crate::email::Email;
use crate::maintenance_type::MaintenanceType;
use crate::maintenance_type::MaintenanceTypeError;
use crate::maintenance_type::MaintenanceTypeView;
use crate::maintenance_type_repository::MaintenanceTypeRepository;
use crate::maintenance_type_repository::MaintenanceTypeRepositoryError;
use crate::maintenance_type_repository::views_contain_id;
use crate::maintenance_type_repository::views_contain_name;

verus! {

pub struct CreateMaintenanceTypeCommand {
    pub name: String,
    pub description: String,
    /// The caller, as the transport resolved it; audit attribution uses
    /// the authenticated caller passed alongside.
    pub user_id: u128,
}

pub struct CreateMaintenanceTypeResponse {
    pub id: i32,
    pub name: String,
    pub description: String,
    pub created_at: i64,
    pub created_by: u128,
    pub created_by_email: Email,
}

impl CreateMaintenanceTypeResponse {
    /// Projects a stored view to the creation response; the mapping is
    /// pure and re-validates nothing.
    pub fn from(view: MaintenanceTypeView) -> (r: Self)
        ensures
            r.id == view.id,
            r.name == view.name,
            r.description == view.description,
            r.created_at == view.created_at,
            r.created_by == view.created_by.id,
            r.created_by_email == view.created_by.email,
    {
        CreateMaintenanceTypeResponse {
            id: view.id,
            name: view.name,
            description: view.description,
            created_at: view.created_at,
            created_by: view.created_by.id,
            created_by_email: view.created_by.email,
        }
    }
}

#[derive(Debug)]
pub enum CreateMaintenanceTypeError {
    Validation(MaintenanceTypeError),
    AlreadyExists,
    Repository(MaintenanceTypeRepositoryError),
}

/// Creates a maintenance type: validate the fields, refuse a name the
/// catalog already holds, store the rest.
pub struct CreateMaintenanceTypeUseCase;

impl CreateMaintenanceTypeUseCase {
    pub fn new() -> Self {
        CreateMaintenanceTypeUseCase
    }

    /// On success the catalog gained exactly one entry, at the end,
    /// carrying the given name and description and attributed to the
    /// caller, and the response projects that entry. A blank name is
    /// rejected before the port is consulted; a name conflict is reported
    /// only when the name was already stored; when the input is valid and
    /// the name free, only a store failure stands between the caller and
    /// success.
    pub fn execute<R: MaintenanceTypeRepository>(
        &self,
        repo: &mut R,
        cmd: CreateMaintenanceTypeCommand,
        user: &AuthenticatedUser,
    ) -> (r: Result<CreateMaintenanceTypeResponse, CreateMaintenanceTypeError>)
        ensures
            cmd.name@.len() == 0 <==> r matches Err(CreateMaintenanceTypeError::Validation(_)),
            r matches Err(CreateMaintenanceTypeError::Validation(e)) ==> e is EmptyField,
            cmd.name@.len() == 0 ==> final(repo).views() == old(repo).views(),
            r matches Err(CreateMaintenanceTypeError::AlreadyExists) ==> views_contain_name(
                old(repo).views(),
                cmd.name@,
            ) && final(repo).views() == old(repo).views(),
            r matches Ok(resp) ==> {
                &&& cmd.name@.len() != 0
                &&& !views_contain_name(old(repo).views(), cmd.name@)
                &&& resp.name@ == cmd.name@
                &&& resp.description@ == cmd.description@
                &&& resp.created_by == user.user_id
                &&& final(repo).views().len() == old(repo).views().len() + 1
                &&& final(repo).views() == old(repo).views().push(
                    final(repo).views().last(),
                )
                &&& final(repo).views().last().name@ == cmd.name@
                &&& final(repo).views().last().description@ == cmd.description@
                &&& final(repo).views().last().created_by.id == user.user_id
                &&& resp.id == final(repo).views().last().id
                &&& resp.created_at == final(repo).views().last().created_at
                &&& resp.created_by_email == final(repo).views().last().created_by.email
            },
    {
        let maintenance_type = match MaintenanceType::new(cmd.name, cmd.description) {
            Ok(t) => t,
            Err(e) => {
                return Err(CreateMaintenanceTypeError::Validation(e));
            },
        };
        match repo.exists_by_name(maintenance_type.name()) {
            Ok(true) => {
                return Err(CreateMaintenanceTypeError::AlreadyExists);
            },
            Ok(false) => {},
            Err(e) => {
                return Err(CreateMaintenanceTypeError::Repository(e));
            },
        }
        match repo.create(maintenance_type, user.user_id) {
            Ok(view) => Ok(CreateMaintenanceTypeResponse::from(view)),
            Err(e) => Err(CreateMaintenanceTypeError::Repository(e)),
        }
    }
}

pub struct DeleteMaintenanceTypeCommand {
    pub id: i32,
    /// The caller, as the transport resolved it; audit attribution uses
    /// the authenticated caller passed alongside.
    pub user_id: u128,
}

pub struct DeleteMaintenanceTypeResponse {
    pub success: bool,
    pub message: String,
}

#[derive(Debug)]
pub enum DeleteMaintenanceTypeError {
    NotFound,
    InUse,
    Repository(MaintenanceTypeRepositoryError),
}

/// Deletes a maintenance type by identifier, after checking it exists.
/// Whether a type still referenced by maintenance records may be deleted
/// is left open here: this core deletes it, and a store enforcing
/// referential integrity reports the conflict as a store failure.
pub struct DeleteMaintenanceTypeUseCase;

impl DeleteMaintenanceTypeUseCase {
    pub fn new() -> Self {
        DeleteMaintenanceTypeUseCase
    }

    /// A missing identifier is reported as such after the lookup; on
    /// success exactly the entry with the given identifier is gone.
    pub fn execute<R: MaintenanceTypeRepository>(
        &self,
        repo: &mut R,
        cmd: DeleteMaintenanceTypeCommand,
        user: &AuthenticatedUser,
    ) -> (r: Result<DeleteMaintenanceTypeResponse, DeleteMaintenanceTypeError>)
        ensures
            r matches Err(DeleteMaintenanceTypeError::NotFound) ==> !views_contain_id(
                old(repo).views(),
                cmd.id,
            ) && final(repo).views() == old(repo).views(),
            r matches Ok(resp) ==> {
                &&& resp.success
                &&& exists|i: int|
                    0 <= i < old(repo).views().len() && (#[trigger] old(repo).views()[i]).id
                        == cmd.id && final(repo).views() == old(repo).views().remove(i)
            },
    {
        let maintenance_type = match repo.get_by_id(cmd.id) {
            Ok(Some(t)) => t,
            Ok(None) => {
                return Err(DeleteMaintenanceTypeError::NotFound);
            },
            Err(e) => {
                return Err(DeleteMaintenanceTypeError::Repository(e));
            },
        };
        match repo.delete(maintenance_type, cmd.id, user.user_id) {
            Ok(_) => Ok(
                DeleteMaintenanceTypeResponse {
                    success: true,
                    message: String::from_str("Maintenance type deleted successfully"),
                },
            ),
            Err(e) => Err(DeleteMaintenanceTypeError::Repository(e)),
        }
    }
}

pub struct UpdateMaintenanceTypeCommand {
    pub id: i32,
    pub name: String,
    pub description: String,
}

pub struct UpdateMaintenanceTypeResponse {
    pub id: i32,
    pub name: String,
    pub description: String,
    pub updated_at: i64,
    pub updated_by: u128,
    pub updated_by_email: Email,
}

impl UpdateMaintenanceTypeResponse {
    /// Projects a stored view to the update response; the mapping is pure
    /// and re-validates nothing.
    pub fn from(view: MaintenanceTypeView) -> (r: Self)
        ensures
            r.id == view.id,
            r.name == view.name,
            r.description == view.description,
            r.updated_at == view.updated_at,
            r.updated_by == view.updated_by.id,
            r.updated_by_email == view.updated_by.email,
    {
        UpdateMaintenanceTypeResponse {
            id: view.id,
            name: view.name,
            description: view.description,
            updated_at: view.updated_at,
            updated_by: view.updated_by.id,
            updated_by_email: view.updated_by.email,
        }
    }
}

#[derive(Debug)]
pub enum UpdateMaintenanceTypeError {
    Validation(MaintenanceTypeError),
    NotFound,
    NameAlreadyExists,
    Repository(MaintenanceTypeRepositoryError),
}

/// Renames or re-describes a maintenance type: fetch it, re-check name
/// uniqueness only when the name actually changes, validate, and write
/// through the port.
pub struct UpdateMaintenanceTypeUseCase;

impl UpdateMaintenanceTypeUseCase {
    pub fn new() -> Self {
        UpdateMaintenanceTypeUseCase
    }

    /// A missing identifier is reported after the lookup; a name conflict
    /// only when the new name differs from the stored one and is already
    /// taken; a blank name is rejected; on success exactly the entry with
    /// the given identifier changed, to the given fields, attributed to
    /// the caller.
    pub fn execute<R: MaintenanceTypeRepository>(
        &self,
        repo: &mut R,
        cmd: UpdateMaintenanceTypeCommand,
        user: &AuthenticatedUser,
    ) -> (r: Result<UpdateMaintenanceTypeResponse, UpdateMaintenanceTypeError>)
        ensures
            r matches Err(UpdateMaintenanceTypeError::NotFound) ==> !views_contain_id(
                old(repo).views(),
                cmd.id,
            ) && final(repo).views() == old(repo).views(),
            r matches Err(UpdateMaintenanceTypeError::NameAlreadyExists) ==> {
                &&& views_contain_name(old(repo).views(), cmd.name@)
                &&& exists|i: int|
                    0 <= i < old(repo).views().len() && (#[trigger] old(repo).views()[i]).id
                        == cmd.id && old(repo).views()[i].name@ != cmd.name@
                &&& final(repo).views() == old(repo).views()
            },
            r matches Err(UpdateMaintenanceTypeError::Validation(e)) ==> cmd.name@.len() == 0 && e
                is EmptyField && final(repo).views() == old(repo).views(),
            r matches Ok(resp) ==> {
                &&& cmd.name@.len() != 0
                &&& resp.id == cmd.id
                &&& resp.name@ == cmd.name@
                &&& resp.description@ == cmd.description@
                &&& resp.updated_by == user.user_id
                &&& exists|i: int|
                    0 <= i < old(repo).views().len() && (#[trigger] old(repo).views()[i]).id
                        == cmd.id && final(repo).views()[i].name@ == cmd.name@
                        && resp.updated_at == final(repo).views()[i].updated_at
                        && resp.updated_by_email == final(repo).views()[i].updated_by.email
                        && final(repo).views() == old(repo).views().update(
                        i,
                        final(repo).views()[i],
                    )
            },
    {
        let existing = match repo.get_by_id(cmd.id) {
            Ok(Some(t)) => t,
            Ok(None) => {
                return Err(UpdateMaintenanceTypeError::NotFound);
            },
            Err(e) => {
                return Err(UpdateMaintenanceTypeError::Repository(e));
            },
        };
        if !crate::text::str_eq(existing.name(), cmd.name.as_str()) {
            match repo.exists_by_name(cmd.name.as_str()) {
                Ok(true) => {
                    return Err(UpdateMaintenanceTypeError::NameAlreadyExists);
                },
                Ok(false) => {},
                Err(e) => {
                    return Err(UpdateMaintenanceTypeError::Repository(e));
                },
            }
        }
        let updated = match MaintenanceType::new(cmd.name, cmd.description) {
            Ok(t) => t,
            Err(e) => {
                return Err(UpdateMaintenanceTypeError::Validation(e));
            },
        };
        match repo.update(cmd.id, updated, user.user_id) {
            Ok(view) => Ok(UpdateMaintenanceTypeResponse::from(view)),
            Err(e) => Err(UpdateMaintenanceTypeError::Repository(e)),
        }
    }
}

} // verus!
