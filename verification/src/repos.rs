//! Repository operations.

pub mod generate;

use vstd::prelude::*;
use vstd::string::StringExecFns;

verus! {

/// Scope over one repository.
pub struct Repos {
    pub owner: String,
    pub repo: String,
}

impl Repos {
    /// The scope of `owner/repo`.
    pub fn new(owner: &str, repo: &str) -> (r: Repos)
        ensures
            r.owner@ == owner@,
            r.repo@ == repo@,
    {
        Repos { owner: owner.to_owned(), repo: repo.to_owned() }
    }

    /// The content tree of this repository.
    pub fn contents(&self) -> (r: crate::contents::Contents)
        ensures
            r.owner@ == self.owner@,
            r.repo@ == self.repo@,
    {
        crate::contents::Contents::new(self.owner.as_str(), self.repo.as_str())
    }
}

} // verus!
