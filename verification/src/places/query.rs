//! Queries against the Places service. The library holds the rules; sending
//! a request and reading its answer is left to the caller.

pub mod client;
pub mod place_search;
pub mod responses;
