//! Core of a fleet-vehicle maintenance system: self-validating value
//! objects (vehicle identification numbers, license plates, email
//! addresses, engine and interval classifications), the entities built
//! from them, the repository ports persistence satisfies, and the use
//! cases that orchestrate every command and query through those ports.
//!
//! Each constructor states exactly which inputs it accepts and what it
//! stores; each use case states how the store and the response relate to
//! the request, for every outcome of the ports it consults.

pub mod auth;
pub mod clock;
pub mod create_vehicle;
pub mod email;
pub mod engine_type;
pub mod get_all_vehicle;
pub mod ids;
pub mod in_memory;
pub mod interval_type;
pub mod license_plate;
pub mod maintenance;
pub mod maintenance_commands;
pub mod maintenance_queries;
pub mod maintenance_record;
pub mod maintenance_repository;
pub mod maintenance_type;
pub mod maintenance_type_repository;
pub mod pagination;
pub mod template;
pub mod text;
pub mod user;
pub mod vehicle;
pub mod vehicle_filter;
pub mod vehicle_listing;
pub mod vehicle_repository;
pub mod vehicle_status;
pub mod vin;
