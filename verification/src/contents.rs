//! Repository contents: reading entries and mutating files.

pub mod create_file;
pub mod delete_file;
pub mod get;
pub mod update_file;

use vstd::prelude::*;
use vstd::string::StringExecFns;

verus! {

/// The operation path for the contents of `filepath` in `owner/repo`.
pub open spec fn contents_path(
    owner: Seq<char>,
    repo: Seq<char>,
    filepath: Seq<char>,
) -> Seq<char> {
    "repos/"@ + owner + "/"@ + repo + "/contents/"@ + filepath
}

/// Renders the contents path for these coordinates.
pub fn render_contents_path(owner: &str, repo: &str, filepath: &str) -> (r: String)
    ensures
        r@ == contents_path(owner@, repo@, filepath@),
{
    let mut p = String::new();
    p.append("repos/");
    p.append(owner);
    p.append("/");
    p.append(repo);
    p.append("/contents/");
    p.append(filepath);
    proof {
        assert(Seq::<char>::empty() + "repos/"@ + owner@ + "/"@ + repo@ + "/contents/"@
            + filepath@ =~= contents_path(owner@, repo@, filepath@));
    }
    p
}

/// Scope over one repository's content tree.
pub struct Contents {
    pub owner: String,
    pub repo: String,
}

impl Contents {
    /// The content scope of `owner/repo`.
    pub fn new(owner: &str, repo: &str) -> (r: Contents)
        ensures
            r.owner@ == owner@,
            r.repo@ == repo@,
    {
        Contents { owner: owner.to_owned(), repo: repo.to_owned() }
    }

    /// A builder fetching the entry at `filepath`, or the entries under it
    /// when it is a directory.
    pub fn get(&self, filepath: &str) -> (r: get::GetContentsRepoBuilder)
        ensures
            r.owner@ == self.owner@,
            r.repo@ == self.repo@,
            r.filepath@ == filepath@,
            r.fields@ == Seq::<(Seq<char>, crate::json::JsonVal)>::empty(),
    {
        get::GetContentsRepoBuilder::new(self.owner.as_str(), self.repo.as_str(), filepath)
    }
}

} // verus!
