//! The query use cases over the maintenance-type catalog: list all, get
//! one by identifier, and search by a case-insensitive substring over
//! name and description.
use vstd::prelude::*;

use crate::email::Email;
use crate::maintenance_type::MaintenanceTypeView;
use crate::maintenance_type_repository::MaintenanceTypeRepository;
use crate::maintenance_type_repository::MaintenanceTypeRepositoryError;
use crate::maintenance_type_repository::views_contain_id;
use crate::text::seq_to_lower;
use crate::text::seq_contains_sub;
use crate::text::str_contains;
use crate::text::str_to_lower;
use crate::text::str_trim;
use crate::text::trimmed;

verus! {

pub struct GetAllMaintenanceTypesQuery;

pub struct MaintenanceTypeSummary {
    pub id: i32,
    pub name: String,
    pub description: String,
    pub created_at: i64,
    pub updated_at: i64,
}

/// What a summary keeps of a stored view.
pub open spec fn summary_of(s: MaintenanceTypeSummary, v: MaintenanceTypeView) -> bool {
    &&& s.id == v.id
    &&& s.name == v.name
    &&& s.description == v.description
    &&& s.created_at == v.created_at
    &&& s.updated_at == v.updated_at
}

impl MaintenanceTypeSummary {
    /// Projects a stored view to its listing summary.
    pub fn from(view: MaintenanceTypeView) -> (r: Self)
        ensures
            summary_of(r, view),
    {
        MaintenanceTypeSummary {
            id: view.id,
            name: view.name,
            description: view.description,
            created_at: view.created_at,
            updated_at: view.updated_at,
        }
    }
}

pub struct GetAllMaintenanceTypesResponse {
    pub maintenance_types: Vec<MaintenanceTypeSummary>,
    pub total_count: usize,
}

impl GetAllMaintenanceTypesResponse {
    /// Projects the full list of stored views, keeping their order; the
    /// total is the list's length.
    pub fn from(views: Vec<MaintenanceTypeView>) -> (r: Self)
        ensures
            r.total_count == views@.len(),
            r.maintenance_types@.len() == views@.len(),
            forall|i: int|
                0 <= i < views@.len() ==> summary_of(
                    #[trigger] r.maintenance_types@[i],
                    views@[i],
                ),
    {
        let total_count = views.len();
        let mut maintenance_types: Vec<MaintenanceTypeSummary> = Vec::new();
        let n = total_count;
        let mut i: usize = 0;
        while i < n
            invariant
                n == views@.len(),
                maintenance_types@.len() == i,
                0 <= i <= n,
                forall|j: int|
                    0 <= j < i ==> summary_of(#[trigger] maintenance_types@[j], views@[j]),
            decreases n - i,
        {
            maintenance_types.push(MaintenanceTypeSummary::from(views[i].clone()));
            i = i + 1;
        }
        GetAllMaintenanceTypesResponse { maintenance_types, total_count }
    }
}

#[derive(Debug)]
pub enum GetAllMaintenanceTypesError {
    Repository(MaintenanceTypeRepositoryError),
}

/// Lists the whole catalog, in storage order.
pub struct GetAllMaintenanceTypesUseCase;

impl GetAllMaintenanceTypesUseCase {
    pub fn new() -> Self {
        GetAllMaintenanceTypesUseCase
    }

    /// On success the response summarizes every stored view, in order,
    /// and counts them.
    pub fn execute<R: MaintenanceTypeRepository>(
        &self,
        repo: &R,
        _query: GetAllMaintenanceTypesQuery,
    ) -> (r: Result<GetAllMaintenanceTypesResponse, GetAllMaintenanceTypesError>)
        ensures
            r matches Ok(resp) ==> {
                &&& resp.total_count == repo.views().len()
                &&& resp.maintenance_types@.len() == repo.views().len()
                &&& forall|i: int|
                    0 <= i < repo.views().len() ==> summary_of(
                        #[trigger] resp.maintenance_types@[i],
                        repo.views()[i],
                    )
            },
    {
        match repo.get_all_view() {
            Ok(views) => Ok(GetAllMaintenanceTypesResponse::from(views)),
            Err(e) => Err(GetAllMaintenanceTypesError::Repository(e)),
        }
    }
}

pub struct GetMaintenanceTypeByIdQuery {
    pub id: i32,
}

pub struct GetMaintenanceTypeByIdResponse {
    pub id: i32,
    pub name: String,
    pub description: String,
    pub created_at: i64,
    pub created_by: u128,
    pub created_by_email: Email,
    pub updated_at: i64,
    pub updated_by: u128,
    pub updated_by_email: Email,
}

impl GetMaintenanceTypeByIdResponse {
    /// Projects a stored view, flattening the audit users to their
    /// identifiers and addresses.
    pub fn from(view: MaintenanceTypeView) -> (r: Self)
        ensures
            r.id == view.id,
            r.name == view.name,
            r.description == view.description,
            r.created_at == view.created_at,
            r.created_by == view.created_by.id,
            r.created_by_email == view.created_by.email,
            r.updated_at == view.updated_at,
            r.updated_by == view.updated_by.id,
            r.updated_by_email == view.updated_by.email,
    {
        GetMaintenanceTypeByIdResponse {
            id: view.id,
            name: view.name,
            description: view.description,
            created_at: view.created_at,
            created_by: view.created_by.id,
            created_by_email: view.created_by.email,
            updated_at: view.updated_at,
            updated_by: view.updated_by.id,
            updated_by_email: view.updated_by.email,
        }
    }
}

#[derive(Debug)]
pub enum GetMaintenanceTypeByIdError {
    NotFound,
    Repository(MaintenanceTypeRepositoryError),
}

/// Fetches one maintenance type by identifier.
pub struct GetMaintenanceTypeByIdUseCase;

impl GetMaintenanceTypeByIdUseCase {
    pub fn new() -> Self {
        GetMaintenanceTypeByIdUseCase
    }

    /// A missing identifier is reported as such; a found one is projected
    /// to the response.
    pub fn execute<R: MaintenanceTypeRepository>(
        &self,
        repo: &R,
        query: GetMaintenanceTypeByIdQuery,
    ) -> (r: Result<GetMaintenanceTypeByIdResponse, GetMaintenanceTypeByIdError>)
        ensures
            r matches Err(GetMaintenanceTypeByIdError::NotFound) ==> !views_contain_id(
                repo.views(),
                query.id,
            ),
            r matches Ok(resp) ==> {
                &&& resp.id == query.id
                &&& exists|i: int|
                    0 <= i < repo.views().len() && (#[trigger] repo.views()[i]).id == query.id
                        && resp.name == repo.views()[i].name
                        && resp.description == repo.views()[i].description
                        && resp.created_at == repo.views()[i].created_at
                        && resp.created_by == repo.views()[i].created_by.id
                        && resp.created_by_email == repo.views()[i].created_by.email
                        && resp.updated_at == repo.views()[i].updated_at
                        && resp.updated_by == repo.views()[i].updated_by.id
                        && resp.updated_by_email == repo.views()[i].updated_by.email
            },
    {
        match repo.get_view_by_id(query.id) {
            Ok(Some(view)) => {
                proof {
                    let i = choose|i: int|
                        0 <= i < repo.views().len() && #[trigger] repo.views()[i] == view;
                    assert((repo.views()[i]).id == query.id);
                }
                Ok(GetMaintenanceTypeByIdResponse::from(view))
            },
            Ok(None) => Err(GetMaintenanceTypeByIdError::NotFound),
            Err(e) => Err(GetMaintenanceTypeByIdError::Repository(e)),
        }
    }
}

pub struct SearchMaintenanceTypesQuery {
    pub search_term: String,
    pub limit: Option<usize>,
}

pub struct MaintenanceTypeSearchResult {
    pub id: i32,
    pub name: String,
    pub description: String,
    pub created_at: i64,
    pub updated_at: i64,
}

/// What a search result keeps of a stored view.
pub open spec fn search_result_of(s: MaintenanceTypeSearchResult, v: MaintenanceTypeView) -> bool {
    &&& s.id == v.id
    &&& s.name == v.name
    &&& s.description == v.description
    &&& s.created_at == v.created_at
    &&& s.updated_at == v.updated_at
}

impl MaintenanceTypeSearchResult {
    /// Projects a stored view to a search hit.
    pub fn from(view: MaintenanceTypeView) -> (r: Self)
        ensures
            search_result_of(r, view),
    {
        MaintenanceTypeSearchResult {
            id: view.id,
            name: view.name,
            description: view.description,
            created_at: view.created_at,
            updated_at: view.updated_at,
        }
    }
}

pub struct SearchMaintenanceTypesResponse {
    pub results: Vec<MaintenanceTypeSearchResult>,
    pub total_found: usize,
    pub search_term: String,
}

#[derive(Debug)]
pub enum SearchMaintenanceTypesError {
    EmptySearchTerm,
    Repository(MaintenanceTypeRepositoryError),
}

/// A view matches a lower-cased term when its lower-cased name or
/// description contains the term.
pub open spec fn view_matches(v: MaintenanceTypeView, term: Seq<char>) -> bool {
    seq_contains_sub(seq_to_lower(v.name@), term) || seq_contains_sub(
        seq_to_lower(v.description@),
        term,
    )
}

/// The stored views matching the term, truncated to the caller's limit.
pub open spec fn search_hits(
    views: Seq<MaintenanceTypeView>,
    term: Seq<char>,
    limit: Option<usize>,
) -> Seq<MaintenanceTypeView> {
    let matching = views.filter(|v: MaintenanceTypeView| view_matches(v, term));
    match limit {
        Some(l) => {
            if l < matching.len() {
                matching.subrange(0, l as int)
            } else {
                matching
            }
        },
        None => matching,
    }
}

/// Searches the catalog in memory: a case-insensitive substring match
/// over name and description, then an optional truncation. The reported
/// total reflects the count after truncation: the size of the returned
/// list.
pub struct SearchMaintenanceTypesUseCase;

impl SearchMaintenanceTypesUseCase {
    pub fn new() -> Self {
        SearchMaintenanceTypesUseCase
    }

    /// A blank term is rejected before the port is consulted; on success
    /// the results are exactly the matching views in storage order,
    /// truncated to the limit, and the total is their count.
    pub fn execute<R: MaintenanceTypeRepository>(
        &self,
        repo: &R,
        query: SearchMaintenanceTypesQuery,
    ) -> (r: Result<SearchMaintenanceTypesResponse, SearchMaintenanceTypesError>)
        ensures
            r matches Err(SearchMaintenanceTypesError::EmptySearchTerm) <==> trimmed(
                query.search_term@,
            ).len() == 0,
            r matches Ok(resp) ==> {
                let hits = search_hits(repo.views(), seq_to_lower(query.search_term@), query.limit);
                &&& resp.results@.len() == hits.len()
                &&& forall|i: int|
                    0 <= i < hits.len() ==> search_result_of(#[trigger] resp.results@[i], hits[i])
                &&& resp.total_found == hits.len()
                &&& resp.search_term == query.search_term
            },
    {
        if str_trim(query.search_term.as_str()).is_empty() {
            return Err(SearchMaintenanceTypesError::EmptySearchTerm);
        }
        let all = match repo.get_all_view() {
            Ok(vs) => vs,
            Err(e) => {
                return Err(SearchMaintenanceTypesError::Repository(e));
            },
        };
        let term_lower = str_to_lower(query.search_term.as_str());
        let ghost term = seq_to_lower(query.search_term@);
        let n = all.len();
        let mut matching: Vec<MaintenanceTypeView> = Vec::new();
        let mut i: usize = 0;
        while i < n
            invariant
                n == all@.len(),
                all@ == repo.views(),
                term == seq_to_lower(query.search_term@),
                term_lower@ == term,
                0 <= i <= n,
                matching@ == all@.subrange(0, i as int).filter(
                    |v: MaintenanceTypeView| view_matches(v, term),
                ),
            decreases n - i,
        {
            let name_lower = str_to_lower(all[i].name.as_str());
            let desc_lower = str_to_lower(all[i].description.as_str());
            let hit = str_contains(name_lower.as_str(), term_lower.as_str()) || str_contains(
                desc_lower.as_str(),
                term_lower.as_str(),
            );
            proof {
                assert(hit == view_matches(all@[i as int], term));
                reveal_with_fuel(Seq::<MaintenanceTypeView>::filter, 2);
                assert(all@.subrange(0, i + 1).drop_last() =~= all@.subrange(0, i as int));
                assert(all@.subrange(0, i + 1).last() == all@[i as int]);
            }
            if hit {
                matching.push(all[i].clone());
            }
            i = i + 1;
        }
        proof {
            assert(all@.subrange(0, n as int) =~= all@);
        }
        // Truncate to the caller's limit, dropping hits from the end.
        let limited: bool = match query.limit {
            Some(l) => l < matching.len(),
            None => false,
        };
        if limited {
            let l = match query.limit {
                Some(l) => l,
                None => 0,
            };
            let ghost full = matching@;
            proof {
                assert(full.subrange(0, full.len() as int) =~= full);
            }
            while matching.len() > l
                invariant
                    matching@.len() <= full.len(),
                    matching@ == full.subrange(0, matching@.len() as int),
                    l <= matching@.len(),
                decreases matching@.len(),
            {
                proof {
                    assert(full.subrange(0, matching@.len() as int).drop_last() =~= full.subrange(
                        0,
                        matching@.len() - 1,
                    ));
                }
                matching.pop();
            }
            proof {
                assert(matching@ == full.subrange(0, l as int));
            }
        }
        let mut results: Vec<MaintenanceTypeSearchResult> = Vec::new();
        let ghost kept = matching@;
        let m = matching.len();
        let mut i: usize = 0;
        while i < m
            invariant
                m == kept.len(),
                matching@ == kept,
                0 <= i <= m,
                results@.len() == i,
                forall|j: int| 0 <= j < i ==> search_result_of(#[trigger] results@[j], kept[j]),
            decreases m - i,
        {
            results.push(MaintenanceTypeSearchResult::from(matching[i].clone()));
            i = i + 1;
        }
        let total_found = results.len();
        Ok(SearchMaintenanceTypesResponse { results, total_found, search_term: query.search_term })
    }
}

} // verus!
