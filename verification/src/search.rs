//! Search operations.

pub mod issues;
pub mod repos;
pub mod users;

use vstd::prelude::*;

verus! {

/// Scope over the search operations.
pub struct Search;

impl Search {
    /// A builder searching repositories; every search option is optional.
    pub fn repos(&self) -> (r: repos::SearchRepositoriesBuilder)
        ensures
            r.fields@ == Seq::<(Seq<char>, crate::json::JsonVal)>::empty(),
    {
        repos::SearchRepositoriesBuilder::new()
    }

    /// A builder searching users; every search option is optional.
    pub fn users(&self) -> (r: users::SearchUsersBuilder)
        ensures
            r.fields@ == Seq::<(Seq<char>, crate::json::JsonVal)>::empty(),
    {
        users::SearchUsersBuilder::new()
    }

    /// A builder searching issues; every search option is optional.
    pub fn issues(&self) -> (r: issues::SearchIssuesBuilder)
        ensures
            r.fields@ == Seq::<(Seq<char>, crate::json::JsonVal)>::empty(),
    {
        issues::SearchIssuesBuilder::new()
    }
}

} // verus!
