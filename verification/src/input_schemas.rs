//! The shapes of request parameters.

use vstd::prelude::*;

verus! {

/// The path parameter of a request for one user.
#[derive(Debug, Clone, Copy, PartialEq, Eq, Structural)]
pub struct GetUserWithId {
    pub user_id: usize,
}

/// The query parameters of a paged listing.
#[derive(Debug, Clone, Copy, PartialEq, Eq, Structural)]
pub struct Pagination {
    pub page: usize,
    pub per_page: usize,
}

/// The JSON body that describes a user.
#[derive(Debug, Clone, PartialEq, Eq)]
pub struct UserDetail {
    pub user_id: usize,
    pub username: String,
    pub is_active: bool,
}

} // verus!
