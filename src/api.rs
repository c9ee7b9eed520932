use vstd::prelude::*;

verus! {

/// The period by which collections are ranked.
#[derive(PartialEq, Eq, Structural, Clone, Copy, Debug)]
pub enum SortBy {
    _1h,
    _24h,
    _7d,
    _30d,
    All,
}

/// The direction of a ranking.
#[derive(PartialEq, Eq, Structural, Clone, Copy, Debug)]
pub enum SortDirection {
    Desc,
    Asc,
}

/// Query parameters of the collection listing.
#[derive(Debug, PartialEq, Eq)]
pub struct Params {
    pub limit: u8,
    pub page: u64,
    pub search: Option<String>,
    pub sort_by: SortBy,
    pub sort_direction: SortDirection,
}

/// A row count.
#[derive(PartialEq, Eq, Structural, Clone, Copy, Debug, Default)]
pub struct Count {
    pub count: i64,
}

/// Claims of an access token.
#[derive(Debug, PartialEq, Eq)]
pub struct Claims {
    pub exp: u32,
    pub address: String,
}

/// Claims of a token issued to a subject.
#[derive(Debug, PartialEq, Eq)]
pub struct SubClaims {
    pub exp: u32,
    pub sub: String,
}

/// The verified claims of an authenticated request.
#[derive(Debug, PartialEq, Eq)]
pub struct Guard(pub Claims);

/// One page of results with the page number and the total count.
pub struct PaginatedData<T> {
    pub nodes: Vec<T>,
    pub page: u64,
    pub total: u64,
}

} // verus!
