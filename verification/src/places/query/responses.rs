//! The answers of the Places service, as plain values.
//!
//! The record of a single place is a type parameter: the paging rules move
//! such records and never look inside.

use vstd::prelude::*;

verus! {

/// The addresses of the pages before and after the one just received.
#[derive(Clone, Debug, PartialEq)]
pub struct Pagination {
    pub previous_url: Option<String>,
    pub next_url: Option<String>,
}

/// One page of a search near a point or within an extent.
#[derive(Clone, Debug, PartialEq)]
pub struct PointResponse<R> {
    pub results: Vec<R>,
    pub pagination: Option<Pagination>,
}

impl<R> PointResponse<R> {
    /// The address of the page that follows this one, if the service named
    /// one.
    pub open spec fn next_url(&self) -> Option<String> {
        match self.pagination {
            Some(p) => p.next_url,
            None => None,
        }
    }
}

/// The service's own account of why a request failed.
#[derive(Clone, Debug, PartialEq)]
pub struct ErrorDetails {
    pub code: u16,
    pub message: String,
    pub details: Vec<String>,
    pub rest_info_url: String,
}

/// The body of a failed request.
#[derive(Clone, Debug, PartialEq)]
pub struct ErrorResponse {
    pub error: ErrorDetails,
}

/// What a search request is answered with: a page of results or an error.
#[derive(Clone, Debug, PartialEq)]
pub enum ExpectedResponse<R> {
    Point(PointResponse<R>),
    Error(ErrorResponse),
}

} // verus!
