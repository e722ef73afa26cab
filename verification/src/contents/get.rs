//! Fetching the contents of a path in a repository.

use vstd::prelude::*;
use vstd::string::StringExecFns;

use crate::client::{auth_header_of, url_of, Client, Error, HttpRequest, Method};
use crate::contents::{contents_path, render_contents_path};
use crate::fields::{fm_set, Fields};
use crate::json::JsonVal;
use crate::json::Json;
use crate::model::Entry;
use crate::query::{query_suffix, query_suffix_string};
use crate::response::{api_message, interpret_entries, is_success, normalized_entries_of};

verus! {

/// Builder for fetching the entry or entries at a path: fixed coordinates
/// and an optional git reference.
pub struct GetContentsRepoBuilder {
    pub owner: String,
    pub repo: String,
    pub filepath: String,
    pub fields: Fields,
}

impl GetContentsRepoBuilder {
    /// A builder that will fetch `filepath` in `owner/repo`. No optional
    /// parameter is set.
    pub fn new(owner: &str, repo: &str, filepath: &str) -> (r: Self)
        ensures
            r.owner@ == owner@,
            r.repo@ == repo@,
            r.filepath@ == filepath@,
            r.fields@ == Seq::<(Seq<char>, JsonVal)>::empty(),
    {
        GetContentsRepoBuilder {
            owner: owner.to_owned(),
            repo: repo.to_owned(),
            filepath: filepath.to_owned(),
            fields: Fields::new(),
        }
    }

    /// Sets the commit, branch or tag to read from; a second call replaces
    /// the first value.
    pub fn refs(self, value: &str) -> (r: Self)
        ensures
            r.owner == self.owner,
            r.repo == self.repo,
            r.filepath == self.filepath,
            r.fields@ == fm_set(self.fields@, "ref"@, JsonVal::Str(value@)),
    {
        let mut fields = self.fields;
        fields.set("ref", Json::Str(value.to_owned()));
        GetContentsRepoBuilder {
            owner: self.owner,
            repo: self.repo,
            filepath: self.filepath,
            fields,
        }
    }

    /// The rendered request: a GET of the contents path, with the fields
    /// that are set as query parameters and no body.
    pub fn request(&self, client: &Client) -> (r: HttpRequest)
        ensures
            r.method == Method::Get,
            r.url@ == url_of(
                client.base_url@,
                contents_path(self.owner@, self.repo@, self.filepath@),
            ) + query_suffix(self.fields@),
            (match r.auth_header {
                Some(h) => auth_header_of(client.auth) == Some(h@),
                None => auth_header_of(client.auth) is None,
            }),
            r.body is None,
    {
        let path = render_contents_path(
            self.owner.as_str(),
            self.repo.as_str(),
            self.filepath.as_str(),
        );
        let mut req = client.request(Method::Get, path.as_str());
        let suffix = query_suffix_string(&self.fields);
        req.url.append(suffix.as_str());
        req
    }

    /// Interprets the raw response: a success body yields the entries,
    /// whether the server answered with a list or one bare entry; any other
    /// status is the server's error.
    pub fn interpret(status: u16, body: &str) -> (r: Result<Vec<Entry>, Error>)
        ensures
            is_success(status) ==> (match r {
                Ok(es) => normalized_entries_of(body@) == Some(es.deep_view()),
                Err(e) => normalized_entries_of(body@) is None && e == (Error::Decode { status }),
            }),
            !is_success(status) ==> (match r {
                Err(e) => (e matches Error::Api { status: st, message: m } && st == status && m@
                    == api_message(body@)),
                Ok(_) => false,
            }),
    {
        interpret_entries(status, body)
    }
}

} // verus!
