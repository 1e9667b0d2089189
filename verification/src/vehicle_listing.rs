//! The paged vehicle listing: the read-side filter and view, the port
//! that pages server-side, and the query use case that wraps the result
//! with its pagination figures.
use vstd::prelude::*;

use crate::clock::format_rfc3339;
use crate::clock::rfc3339_representable;
use crate::clock::rfc3339_text_of;
use crate::engine_type::EngineType;
use crate::engine_type::engine_key;
use crate::ids::uuid_text_of;
use crate::license_plate::LicensePlate;
use crate::pagination::SortOrder;
use crate::pagination::spec_total_pages;
use crate::pagination::total_pages;
use crate::text::str_eq;
use crate::text::str_to_lower;
use crate::text::seq_to_lower;
use crate::vin::VehicleVin;

verus! {

/// A read view of a stored vehicle, its value objects flattened to text.
#[derive(Debug)]
pub struct VehicleView {
    /// The identifier, in its canonical text.
    pub id: String,
    pub make: String,
    pub model: String,
    pub year: u16,
    pub vin: String,
    pub license_plate: String,
    pub engine_type: String,
    pub created_at: i64,
    pub updated_at: i64,
}

impl Clone for VehicleView {
    fn clone(&self) -> (r: Self)
        ensures
            r == self,
    {
        VehicleView {
            id: self.id.clone(),
            make: self.make.clone(),
            model: self.model.clone(),
            year: self.year,
            vin: self.vin.clone(),
            license_plate: self.license_plate.clone(),
            engine_type: self.engine_type.clone(),
            created_at: self.created_at,
            updated_at: self.updated_at,
        }
    }
}

/// The optional field constraints of a fresh listing filter.
#[derive(Debug)]
pub struct NewVehicleFilter {
    pub make: Option<String>,
    pub model: Option<String>,
    pub year: Option<u16>,
    pub vin: Option<VehicleVin>,
    pub license_plate: Option<LicensePlate>,
    pub engine_type: Option<EngineType>,
}

/// The closed set of fields a vehicle listing may be sorted by.
#[derive(Debug, Clone, Copy, PartialEq, Eq)]
pub enum VehicleSortBy {
    Make,
    Model,
    Year,
    Vin,
    LicensePlate,
    EngineType,
    CreatedAt,
    UpdatedAt,
}

impl VehicleSortBy {
    /// The column key of the sort field.
    pub fn as_column_name(&self) -> (r: &str)
        ensures
            self is Make ==> r@ == "make"@,
            self is Model ==> r@ == "model"@,
            self is Year ==> r@ == "year"@,
            self is Vin ==> r@ == "vin"@,
            self is LicensePlate ==> r@ == "license_plate"@,
            self is EngineType ==> r@ == "engine_type"@,
            self is CreatedAt ==> r@ == "created_at"@,
            self is UpdatedAt ==> r@ == "updated_at"@,
    {
        match self {
            VehicleSortBy::Make => "make",
            VehicleSortBy::Model => "model",
            VehicleSortBy::Year => "year",
            VehicleSortBy::Vin => "vin",
            VehicleSortBy::LicensePlate => "license_plate",
            VehicleSortBy::EngineType => "engine_type",
            VehicleSortBy::CreatedAt => "created_at",
            VehicleSortBy::UpdatedAt => "updated_at",
        }
    }

    /// Parses a sort field case-insensitively; an unrecognized one is a
    /// validation error, never a silent fallback.
    pub fn from_str(s: &str) -> (r: Result<Self, String>)
        ensures
            r is Ok <==> crate::vehicle_filter::sort_key_recognized(seq_to_lower(s@)),
            r matches Err(m) ==> m@ == "Invalid sort field: "@ + s@,
            r matches Ok(v) ==> {
                let t = seq_to_lower(s@);
                &&& t == "make"@ ==> v is Make
                &&& t == "model"@ ==> v is Model
                &&& t == "year"@ ==> v is Year
                &&& t == "vin"@ ==> v is Vin
                &&& t == "license_plate"@ ==> v is LicensePlate
                &&& t == "engine_type"@ ==> v is EngineType
                &&& t == "created_at"@ ==> v is CreatedAt
                &&& t == "updated_at"@ ==> v is UpdatedAt
            },
    {
        let lower = str_to_lower(s);
        let t = lower.as_str();
        proof {
            reveal_strlit("make");
            reveal_strlit("model");
            reveal_strlit("year");
            reveal_strlit("vin");
            reveal_strlit("license_plate");
            reveal_strlit("engine_type");
            reveal_strlit("created_at");
            reveal_strlit("updated_at");
            assert("make"@.len() == 4);
            assert("model"@.len() == 5);
            assert("year"@.len() == 4);
            assert("vin"@.len() == 3);
            assert("license_plate"@.len() == 13);
            assert("engine_type"@.len() == 11);
            assert("created_at"@.len() == 10);
            assert("updated_at"@.len() == 10);
            assert("make"@[0] == 'm');
            assert("year"@[0] == 'y');
            assert("created_at"@[0] == 'c');
            assert("updated_at"@[0] == 'u');
        }
        if str_eq(t, "make") {
            Ok(VehicleSortBy::Make)
        } else if str_eq(t, "model") {
            Ok(VehicleSortBy::Model)
        } else if str_eq(t, "year") {
            Ok(VehicleSortBy::Year)
        } else if str_eq(t, "vin") {
            Ok(VehicleSortBy::Vin)
        } else if str_eq(t, "license_plate") {
            Ok(VehicleSortBy::LicensePlate)
        } else if str_eq(t, "engine_type") {
            Ok(VehicleSortBy::EngineType)
        } else if str_eq(t, "created_at") {
            Ok(VehicleSortBy::CreatedAt)
        } else if str_eq(t, "updated_at") {
            Ok(VehicleSortBy::UpdatedAt)
        } else {
            let mut msg = String::from_str("Invalid sort field: ");
            msg.append(s);
            Err(msg)
        }
    }
}

/// The listing filter the read-side port is queried with.
#[derive(Debug)]
pub struct VehicleFilter {
    pub uuid: Option<u128>,
    pub make: Option<String>,
    pub model: Option<String>,
    pub year: Option<u16>,
    pub vin: Option<VehicleVin>,
    pub license_plate: Option<LicensePlate>,
    pub engine_type: Option<EngineType>,
    pub page: u32,
    pub page_size: u32,
    pub sort_by: Option<VehicleSortBy>,
    pub sort_order: SortOrder,
}

impl VehicleFilter {
    /// A first-page filter over the given field constraints, with the
    /// default page size and ascending order.
    pub fn new(filter: NewVehicleFilter) -> (r: Self)
        ensures
            r.uuid is None,
            r.make == filter.make,
            r.model == filter.model,
            r.year == filter.year,
            r.vin == filter.vin,
            r.license_plate == filter.license_plate,
            r.engine_type == filter.engine_type,
            r.page == 1,
            r.page_size == 10,
            r.sort_by is None,
            r.sort_order is Asc,
    {
        VehicleFilter {
            uuid: None,
            make: filter.make,
            model: filter.model,
            year: filter.year,
            vin: filter.vin,
            license_plate: filter.license_plate,
            engine_type: filter.engine_type,
            page: 1,
            page_size: 10,
            sort_by: None,
            sort_order: SortOrder::Asc,
        }
    }
}

/// A view agrees with every field a listing filter fixes.
pub open spec fn view_matches_filter(v: VehicleView, f: VehicleFilter) -> bool {
    &&& (f.uuid matches Some(u) ==> v.id@ == uuid_text_of(u))
    &&& (f.make matches Some(m) ==> v.make@ == m@)
    &&& (f.model matches Some(m) ==> v.model@ == m@)
    &&& (f.year matches Some(y) ==> v.year == y)
    &&& (f.vin matches Some(x) ==> v.vin@ == x@)
    &&& (f.license_plate matches Some(p) ==> v.license_plate@ == p@)
    &&& (f.engine_type matches Some(e) ==> v.engine_type@ == engine_key(e))
}

/// The index the requested one-based page starts at in the matching
/// list.
pub open spec fn listing_offset(f: VehicleFilter) -> int {
    if f.page >= 1 {
        (f.page - 1) * f.page_size
    } else {
        0
    }
}

/// The slice of `m` starting at `offset`, at most `size` long, clamped to
/// the end.
pub open spec fn page_slice(m: Seq<VehicleView>, offset: int, size: int) -> Seq<VehicleView> {
    if offset >= m.len() {
        Seq::empty()
    } else if offset + size <= m.len() {
        m.subrange(offset, offset + size)
    } else {
        m.subrange(offset, m.len() as int)
    }
}

/// The page the listing owes a filter: the views agreeing with it, in
/// presentation order, cut to the requested page.
pub open spec fn listing_page(views: Seq<VehicleView>, f: VehicleFilter) -> Seq<VehicleView> {
    page_slice(
        views.filter(|v: VehicleView| view_matches_filter(v, f)),
        listing_offset(f),
        f.page_size as int,
    )
}

#[derive(Debug)]
pub enum VehicleApplicationRepositoryError {
    NotFound(u128),
    AlreadyExists(u128),
    DatabaseError(String),
}

/// The read-side port of the vehicle listing. Its abstract state is the
/// listed views in the store's presentation order — sorted however the
/// store presents them; on success it serves exactly the requested page
/// of the views agreeing with the filter.
pub trait VehicleApplicationRepository: Sized {
    /// The listed views, in the store's presentation order.
    spec fn views(&self) -> Seq<VehicleView>;

    /// Exactly the requested page of views agreeing with the filter.
    fn get_by_filter(&self, filter: VehicleFilter) -> (r: Result<
        Vec<VehicleView>,
        VehicleApplicationRepositoryError,
    >)
        ensures
            r matches Ok(vs) ==> {
                &&& vs@ == listing_page(self.views(), filter)
                &&& vs@.len() <= filter.page_size
                &&& forall|i: int|
                    0 <= i < vs@.len() ==> view_matches_filter(#[trigger] vs@[i], filter)
            },
    ;
}

/// A vehicle listing backed by a vector of views: it serves the
/// requested page of the views agreeing with the filter, in storage
/// order.
pub struct InMemoryVehicleListing {
    entries: Vec<VehicleView>,
}

impl InMemoryVehicleListing {
    /// A listing over the given views.
    pub fn new(entries: Vec<VehicleView>) -> Self {
        InMemoryVehicleListing { entries }
    }
}

impl VehicleApplicationRepository for InMemoryVehicleListing {
    closed spec fn views(&self) -> Seq<VehicleView> {
        self.entries@
    }

    fn get_by_filter(&self, filter: VehicleFilter) -> (r: Result<
        Vec<VehicleView>,
        VehicleApplicationRepositoryError,
    >) {
        let pages_before: u64 = if filter.page >= 1 {
            (filter.page - 1) as u64
        } else {
            0u64
        };
        proof {
            assert(pages_before * (filter.page_size as u64) < 0x10000000000000000) by (nonlinear_arith)
                requires
                    pages_before < 0x100000000,
                    filter.page_size < 0x100000000,
            ;
        }
        let offset: u64 = pages_before * (filter.page_size as u64);
        proof {
            assert(offset == listing_offset(filter));
        }
        let n = self.entries.len();
        let mut out: Vec<VehicleView> = Vec::new();
        let mut seen: u64 = 0;
        let mut i: usize = 0;
        while i < n
            invariant
                n == self.entries.len(),
                0 <= i <= n,
                seen <= i,
                offset == listing_offset(filter),
                seen == self.entries@.subrange(0, i as int).filter(
                    |v: VehicleView| view_matches_filter(v, filter),
                ).len(),
                out@ == page_slice(
                    self.entries@.subrange(0, i as int).filter(
                        |v: VehicleView| view_matches_filter(v, filter),
                    ),
                    offset as int,
                    filter.page_size as int,
                ),
                out@.len() <= filter.page_size,
                forall|j: int|
                    0 <= j < out@.len() ==> view_matches_filter(#[trigger] out@[j], filter),
            decreases n - i,
        {
            let ghost m = self.entries@.subrange(0, i as int).filter(
                |v: VehicleView| view_matches_filter(v, filter),
            );
            let ghost m1 = self.entries@.subrange(0, i + 1).filter(
                |v: VehicleView| view_matches_filter(v, filter),
            );
            proof {
                reveal_with_fuel(Seq::<VehicleView>::filter, 2);
                assert(self.entries@.subrange(0, i + 1).drop_last() =~= self.entries@.subrange(
                    0,
                    i as int,
                ));
                assert(self.entries@.subrange(0, i + 1).last() == self.entries@[i as int]);
            }
            if Self::matches(&self.entries[i], &filter) {
                proof {
                    assert(m1 == m.push(self.entries@[i as int]));
                }
                if seen >= offset && out.len() < filter.page_size as usize {
                    out.push(self.entries[i].clone());
                    proof {
                        assert(out@ =~= page_slice(m1, offset as int, filter.page_size as int));
                    }
                } else {
                    proof {
                        if seen < offset {
                            assert(page_slice(m1, offset as int, filter.page_size as int)
                                =~= Seq::<VehicleView>::empty());
                        } else {
                            assert(out@ =~= page_slice(m1, offset as int, filter.page_size as int));
                        }
                    }
                }
                seen = seen + 1;
            } else {
                proof {
                    assert(m1 == m);
                }
            }
            i = i + 1;
        }
        proof {
            assert(self.entries@.subrange(0, n as int) =~= self.entries@);
        }
        Ok(out)
    }
}

impl InMemoryVehicleListing {
    /// Whether a view agrees with every field the filter fixes; the
    /// identifier constraint is matched against the view's rendered
    /// identifier.
    fn matches(v: &VehicleView, f: &VehicleFilter) -> (r: bool)
        ensures
            r == view_matches_filter(*v, *f),
    {
        let uuid_ok = match &f.uuid {
            Some(u) => str_eq(v.id.as_str(), crate::ids::format_uuid(*u).as_str()),
            None => true,
        };
        let make_ok = match &f.make {
            Some(m) => str_eq(v.make.as_str(), m.as_str()),
            None => true,
        };
        let model_ok = match &f.model {
            Some(m) => str_eq(v.model.as_str(), m.as_str()),
            None => true,
        };
        let year_ok = match &f.year {
            Some(y) => v.year == *y,
            None => true,
        };
        let vin_ok = match &f.vin {
            Some(x) => str_eq(v.vin.as_str(), x.value()),
            None => true,
        };
        let plate_ok = match &f.license_plate {
            Some(p) => str_eq(v.license_plate.as_str(), p.value()),
            None => true,
        };
        let engine_ok = match &f.engine_type {
            Some(e) => str_eq(v.engine_type.as_str(), e.as_str()),
            None => true,
        };
        uuid_ok && make_ok && model_ok && year_ok && vin_ok && plate_ok && engine_ok
    }
}

/// One listed vehicle, its moments rendered as text.
#[derive(Debug)]
pub struct VehicleResponse {
    pub id: String,
    pub make: String,
    pub model: String,
    pub year: u16,
    pub vin: String,
    pub license_plate: String,
    pub engine_type: String,
    pub created_at: String,
    pub updated_at: String,
}

/// A moment's text: its canonical rendering, or empty exactly where the
/// moment falls outside the representable range.
pub open spec fn moment_text(s: Seq<char>, millis: i64) -> bool {
    if rfc3339_representable(millis) {
        s == rfc3339_text_of(millis)
    } else {
        s.len() == 0
    }
}

/// What a listed response keeps of a view.
pub open spec fn response_of(r: VehicleResponse, v: VehicleView) -> bool {
    &&& r.id == v.id
    &&& r.make == v.make
    &&& r.model == v.model
    &&& r.year == v.year
    &&& r.vin == v.vin
    &&& r.license_plate == v.license_plate
    &&& r.engine_type == v.engine_type
    &&& moment_text(r.created_at@, v.created_at)
    &&& moment_text(r.updated_at@, v.updated_at)
}

impl VehicleResponse {
    /// Projects a view, rendering its moments; the mapping is pure and
    /// re-validates nothing.
    pub fn from(vehicle: VehicleView) -> (r: Self)
        ensures
            response_of(r, vehicle),
    {
        let created_at = match format_rfc3339(vehicle.created_at) {
            Some(s) => s,
            None => String::new(),
        };
        let updated_at = match format_rfc3339(vehicle.updated_at) {
            Some(s) => s,
            None => String::new(),
        };
        VehicleResponse {
            id: vehicle.id,
            make: vehicle.make,
            model: vehicle.model,
            year: vehicle.year,
            vin: vehicle.vin,
            license_plate: vehicle.license_plate,
            engine_type: vehicle.engine_type,
            created_at,
            updated_at,
        }
    }
}

/// A listed response agrees with every field the filter fixes, as the
/// view it projects did.
pub open spec fn response_matches_filter(r: VehicleResponse, f: VehicleFilter) -> bool {
    &&& (f.uuid matches Some(u) ==> r.id@ == uuid_text_of(u))
    &&& (f.make matches Some(m) ==> r.make@ == m@)
    &&& (f.model matches Some(m) ==> r.model@ == m@)
    &&& (f.year matches Some(y) ==> r.year == y)
    &&& (f.vin matches Some(x) ==> r.vin@ == x@)
    &&& (f.license_plate matches Some(p) ==> r.license_plate@ == p@)
    &&& (f.engine_type matches Some(e) ==> r.engine_type@ == engine_key(e))
}

/// One page of listed vehicles with its pagination figures.
#[derive(Debug)]
pub struct GetVehiclesResponse {
    pub vehicles: Vec<VehicleResponse>,
    pub total_count: usize,
    pub page: u32,
    pub page_size: u32,
    pub total_pages: u32,
}

#[derive(Debug)]
pub enum GetVehiclesError {
    RepositoryError(VehicleApplicationRepositoryError),
}

/// Lists one page of vehicles through the read-side port and wraps it
/// with its pagination figures.
pub struct GetVehiclesUseCase;

impl GetVehiclesUseCase {
    pub fn new() -> Self {
        GetVehiclesUseCase
    }

    /// On success the returned vehicles are exactly the page the port
    /// owes the filter, projected completely and in order; every one
    /// agrees with the filter; the count is the page's size; and the
    /// page count is the ceiling of the count over the page size — one
    /// page for an empty result or a zero page size.
    pub fn execute<R: VehicleApplicationRepository>(&self, repo: &R, filter: VehicleFilter) -> (r:
        Result<GetVehiclesResponse, GetVehiclesError>)
        ensures
            r matches Ok(resp) ==> {
                &&& resp.page == filter.page
                &&& resp.page_size == filter.page_size
                &&& resp.total_count == resp.vehicles@.len()
                &&& resp.total_count <= filter.page_size
                &&& resp.vehicles@.len() == listing_page(repo.views(), filter).len()
                &&& forall|i: int|
                    0 <= i < resp.vehicles@.len() ==> response_of(
                        #[trigger] resp.vehicles@[i],
                        listing_page(repo.views(), filter)[i],
                    )
                &&& forall|i: int|
                    0 <= i < resp.vehicles@.len() ==> response_matches_filter(
                        #[trigger] resp.vehicles@[i],
                        filter,
                    )
                &&& spec_total_pages(resp.total_count as int, filter.page_size as int) <= u32::MAX
                    ==> resp.total_pages == spec_total_pages(
                    resp.total_count as int,
                    filter.page_size as int,
                )
            },
    {
        let page = filter.page;
        let page_size = filter.page_size;
        let views = match repo.get_by_filter(filter) {
            Ok(vs) => vs,
            Err(e) => {
                return Err(GetVehiclesError::RepositoryError(e));
            },
        };
        let n = views.len();
        let mut vehicles: Vec<VehicleResponse> = Vec::new();
        let ghost all = views@;
        let mut i: usize = 0;
        while i < n
            invariant
                n == all.len(),
                views@ == all,
                0 <= i <= n,
                vehicles@.len() == i,
                forall|j: int| 0 <= j < i ==> response_of(#[trigger] vehicles@[j], all[j]),
                forall|j: int|
                    0 <= j < all.len() ==> view_matches_filter(#[trigger] all[j], filter),
                forall|j: int|
                    0 <= j < i ==> response_matches_filter(#[trigger] vehicles@[j], filter),
            decreases n - i,
        {
            vehicles.push(VehicleResponse::from(views[i].clone()));
            i = i + 1;
        }
        let total_count = vehicles.len();
        let pages = total_pages(total_count, page_size);
        Ok(GetVehiclesResponse { vehicles, total_count, page, page_size, total_pages: pages })
    }
}

} // verus!
