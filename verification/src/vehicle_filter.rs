//! The typed, validated query parameters of the vehicle list endpoint: a
//! raw query is checked field by field and turned into a filter.
use vstd::prelude::*;

use crate::engine_type::EngineType;
use crate::engine_type::EngineTypeError;
use crate::engine_type::engine_parsed;
use crate::ids::parse_uuid;
use crate::ids::uuid_of_text;
use crate::license_plate::LicensePlate;
use crate::license_plate::LicensePlateError;
use crate::pagination::DEFAULT_PAGE;
use crate::pagination::DEFAULT_PAGE_SIZE;
use crate::pagination::MAX_PAGE_SIZE;
use crate::pagination::SortOrder;
use crate::pagination::spec_page_offset;
use crate::text::seq_to_lower;
use crate::text::seq_to_upper;
use crate::text::str_eq;
use crate::text::str_to_lower;
use crate::text::trimmed;
use crate::vin::VehicleVin;
use crate::vin::VehicleVinError;
use crate::vin::vin_normalize;
use crate::vin::vin_valid;

verus! {

/// The raw, optional query parameters as the transport hands them over.
#[derive(Debug)]
pub struct VehicleQuery {
    pub uuid: Option<String>,
    pub make: Option<String>,
    pub model: Option<String>,
    pub year: Option<u16>,
    pub vin: Option<String>,
    pub license_plate: Option<String>,
    pub engine_type: Option<String>,
    pub page: u32,
    pub page_size: u32,
    pub sort_by: Option<String>,
    pub sort_order: Option<SortOrder>,
}

/// The page a query falls back to when the transport carries none.
pub fn default_page() -> (r: u32)
    ensures
        r == DEFAULT_PAGE,
{
    DEFAULT_PAGE
}

/// The page size a query falls back to when the transport carries none.
pub fn default_page_size() -> (r: u32)
    ensures
        r == DEFAULT_PAGE_SIZE,
{
    DEFAULT_PAGE_SIZE
}

/// The closed set of fields a vehicle list may be sorted by.
#[derive(Debug, Clone, Copy, PartialEq, Eq)]
pub enum SortBy {
    Make,
    Model,
    Year,
    Vin,
    LicensePlate,
    EngineType,
    CreatedAt,
    UpdatedAt,
}

/// The lower-cased keys the sort-field parser recognizes.
pub open spec fn sort_key_recognized(t: Seq<char>) -> bool {
    ||| t == "make"@
    ||| t == "model"@
    ||| t == "year"@
    ||| t == "vin"@
    ||| t == "license_plate"@
    ||| t == "engine_type"@
    ||| t == "created_at"@
    ||| t == "updated_at"@
}

/// What parsing the lower-cased key `t` yields: the sort field `s`.
pub open spec fn sort_by_parsed(s: SortBy, t: Seq<char>) -> bool {
    &&& t == "make"@ ==> s is Make
    &&& t == "model"@ ==> s is Model
    &&& t == "year"@ ==> s is Year
    &&& t == "vin"@ ==> s is Vin
    &&& t == "license_plate"@ ==> s is LicensePlate
    &&& t == "engine_type"@ ==> s is EngineType
    &&& t == "created_at"@ ==> s is CreatedAt
    &&& t == "updated_at"@ ==> s is UpdatedAt
}

impl SortBy {
    /// The column key of the sort field.
    pub fn as_column_name(&self) -> (r: &str)
        ensures
            self is Make ==> r@ == "make"@,
            self is Model ==> r@ == "model"@,
            self is Year ==> r@ == "year"@,
            self is Vin ==> r@ == "vin"@,
            self is LicensePlate ==> r@ == "license_plate"@,
            self is EngineType ==> r@ == "engine_type"@,
            self is CreatedAt ==> r@ == "created_at"@,
            self is UpdatedAt ==> r@ == "updated_at"@,
    {
        match self {
            SortBy::Make => "make",
            SortBy::Model => "model",
            SortBy::Year => "year",
            SortBy::Vin => "vin",
            SortBy::LicensePlate => "license_plate",
            SortBy::EngineType => "engine_type",
            SortBy::CreatedAt => "created_at",
            SortBy::UpdatedAt => "updated_at",
        }
    }

    /// Parses a sort field case-insensitively; an unrecognized one is a
    /// validation error, never a silent fallback.
    pub fn from_str(s: &str) -> (r: Result<Self, String>)
        ensures
            r is Ok <==> sort_key_recognized(seq_to_lower(s@)),
            r matches Err(m) ==> m@ == "Invalid sort field: "@ + s@,
            r matches Ok(v) ==> sort_by_parsed(v, seq_to_lower(s@)),
    {
        let lower = str_to_lower(s);
        let t = lower.as_str();
        proof {
            reveal_strlit("make");
            reveal_strlit("model");
            reveal_strlit("year");
            reveal_strlit("vin");
            reveal_strlit("license_plate");
            reveal_strlit("engine_type");
            reveal_strlit("created_at");
            reveal_strlit("updated_at");
            assert("make"@.len() == 4);
            assert("model"@.len() == 5);
            assert("year"@.len() == 4);
            assert("vin"@.len() == 3);
            assert("license_plate"@.len() == 13);
            assert("engine_type"@.len() == 11);
            assert("created_at"@.len() == 10);
            assert("updated_at"@.len() == 10);
            assert("make"@[0] == 'm');
            assert("year"@[0] == 'y');
            assert("created_at"@[0] == 'c');
            assert("updated_at"@[0] == 'u');
        }
        if str_eq(t, "make") {
            Ok(SortBy::Make)
        } else if str_eq(t, "model") {
            Ok(SortBy::Model)
        } else if str_eq(t, "year") {
            Ok(SortBy::Year)
        } else if str_eq(t, "vin") {
            Ok(SortBy::Vin)
        } else if str_eq(t, "license_plate") {
            Ok(SortBy::LicensePlate)
        } else if str_eq(t, "engine_type") {
            Ok(SortBy::EngineType)
        } else if str_eq(t, "created_at") {
            Ok(SortBy::CreatedAt)
        } else if str_eq(t, "updated_at") {
            Ok(SortBy::UpdatedAt)
        } else {
            let mut msg = String::from_str("Invalid sort field: ");
            msg.append(s);
            Err(msg)
        }
    }
}

#[derive(Debug)]
pub enum VehicleFilterError {
    InvalidUuid(uuid::Error),
    InvalidVin(VehicleVinError),
    InvalidLicensePlate(LicensePlateError),
    InvalidEngineType(EngineTypeError),
    InvalidSortBy(String),
}

/// The validated filter the repository is queried with.
#[derive(Debug)]
pub struct VehicleFilter {
    pub uuid: Option<u128>,
    pub make: Option<String>,
    pub model: Option<String>,
    pub year: Option<u16>,
    pub vin: Option<VehicleVin>,
    pub license_plate: Option<LicensePlate>,
    pub engine_type: Option<EngineType>,
    pub page: u32,
    pub page_size: u32,
    pub sort_by: Option<SortBy>,
    pub sort_order: SortOrder,
}

/// The identifier parameter is absent or parses.
pub open spec fn query_uuid_ok(q: VehicleQuery) -> bool {
    q.uuid matches Some(s) ==> uuid_of_text(s@) is Some
}

/// The identification-number parameter is absent or well formed.
pub open spec fn query_vin_ok(q: VehicleQuery) -> bool {
    q.vin matches Some(s) ==> vin_valid(vin_normalize(s@))
}

/// The engine-type parameter is absent or non-blank.
pub open spec fn query_engine_ok(q: VehicleQuery) -> bool {
    q.engine_type matches Some(s) ==> trimmed(s@).len() != 0
}

/// The sort-field parameter is absent or recognized.
pub open spec fn query_sort_ok(q: VehicleQuery) -> bool {
    q.sort_by matches Some(s) ==> sort_key_recognized(seq_to_lower(s@))
}

/// What a filter built from the query holds in each field.
pub open spec fn filter_from_query(f: VehicleFilter, q: VehicleQuery) -> bool {
    &&& (q.uuid matches Some(s) ==> f.uuid matches Some(v) && uuid_of_text(s@) == Some(v))
    &&& (q.uuid is None ==> f.uuid is None)
    &&& f.make == q.make
    &&& f.model == q.model
    &&& f.year == q.year
    &&& (q.vin matches Some(s) ==> f.vin matches Some(v) && v@ == vin_normalize(s@))
    &&& (q.vin is None ==> f.vin is None)
    &&& (q.license_plate matches Some(s) ==> f.license_plate matches Some(p) && p@ == seq_to_upper(
        trimmed(s@),
    ))
    &&& (q.license_plate is None ==> f.license_plate is None)
    &&& (q.engine_type matches Some(s) ==> f.engine_type matches Some(e) && engine_parsed(e, s@))
    &&& (q.engine_type is None ==> f.engine_type is None)
    &&& f.page == q.page
    &&& f.page_size == (if q.page_size > MAX_PAGE_SIZE {
        MAX_PAGE_SIZE as u32
    } else {
        q.page_size
    })
    &&& (q.sort_by matches Some(s) ==> f.sort_by matches Some(b) && sort_by_parsed(
        b,
        seq_to_lower(s@),
    ))
    &&& (q.sort_by is None ==> f.sort_by is None)
    &&& f.sort_order == (match q.sort_order {
        Some(o) => o,
        None => SortOrder::Asc,
    })
}

impl VehicleFilter {
    /// Validates each present parameter of a raw query — identifier,
    /// identification number, engine type, sort field, in that order —
    /// clamps the page size, and defaults the sort order to ascending.
    pub fn from_query(query: VehicleQuery) -> (r: Result<Self, VehicleFilterError>)
        ensures
            r is Ok <==> (query_uuid_ok(query) && query_vin_ok(query) && query_engine_ok(query)
                && query_sort_ok(query)),
            r matches Ok(f) ==> filter_from_query(f, query),
            !query_uuid_ok(query) ==> r matches Err(VehicleFilterError::InvalidUuid(_)),
            query_uuid_ok(query) && !query_vin_ok(query) ==> r matches Err(
                VehicleFilterError::InvalidVin(_),
            ),
            query_uuid_ok(query) && query_vin_ok(query) && !query_engine_ok(query) ==> r matches Err(
                VehicleFilterError::InvalidEngineType(_),
            ),
            query_uuid_ok(query) && query_vin_ok(query) && query_engine_ok(query)
                && !query_sort_ok(query) ==> r matches Err(VehicleFilterError::InvalidSortBy(_)),
    {
        let page_size = if query.page_size > MAX_PAGE_SIZE {
            MAX_PAGE_SIZE
        } else {
            query.page_size
        };
        let uuid = match query.uuid {
            None => None,
            Some(s) => match parse_uuid(s.as_str()) {
                Ok(v) => Some(v),
                Err(e) => {
                    return Err(VehicleFilterError::InvalidUuid(e));
                },
            },
        };
        let vin = match query.vin {
            None => None,
            Some(s) => match VehicleVin::new(s.as_str()) {
                Ok(v) => Some(v),
                Err(e) => {
                    return Err(VehicleFilterError::InvalidVin(e));
                },
            },
        };
        let license_plate = match query.license_plate {
            None => None,
            Some(s) => match LicensePlate::new(s.as_str()) {
                Ok(p) => Some(p),
                Err(e) => {
                    return Err(VehicleFilterError::InvalidLicensePlate(e));
                },
            },
        };
        let engine_type = match query.engine_type {
            None => None,
            Some(s) => match EngineType::new(s.as_str()) {
                Ok(t) => Some(t),
                Err(e) => {
                    return Err(VehicleFilterError::InvalidEngineType(e));
                },
            },
        };
        let sort_by = match query.sort_by {
            None => None,
            Some(s) => match SortBy::from_str(s.as_str()) {
                Ok(b) => Some(b),
                Err(e) => {
                    return Err(VehicleFilterError::InvalidSortBy(e));
                },
            },
        };
        let sort_order = match query.sort_order {
            Some(o) => o,
            None => SortOrder::Asc,
        };
        Ok(
            VehicleFilter {
                uuid,
                make: query.make,
                model: query.model,
                year: query.year,
                vin,
                license_plate,
                engine_type,
                page: query.page,
                page_size,
                sort_by,
                sort_order,
            },
        )
    }

    /// Where the requested page starts in the full result list.
    pub fn offset(&self) -> (r: u32)
        requires
            self.page >= 1,
            spec_page_offset(self.page, self.page_size) <= u32::MAX,
        ensures
            r == spec_page_offset(self.page, self.page_size),
    {
        (self.page - 1) * self.page_size
    }
}

} // verus!
