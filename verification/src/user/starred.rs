//! Starred repositories of the authenticated user.

use vstd::prelude::*;
use vstd::string::StringExecFns;

use crate::client::{auth_header_of, url_of, Client, Error, HttpRequest, Method};
use crate::fields::{fm_set, Fields};
use crate::json::{Json, JsonVal};
use crate::model::Repository;
use crate::query::{query_suffix, query_suffix_string};
use crate::response::{
    api_message, bool_probe, expect_empty, interpret_list, is_success, records_of,
};

verus! {

/// The operation path for the star on `owner/repo`.
pub open spec fn star_path(owner: Seq<char>, repo: Seq<char>) -> Seq<char> {
    "user/starred/"@ + owner + "/"@ + repo
}

/// Renders the star path.
pub fn render_star_path(owner: &str, repo: &str) -> (r: String)
    ensures
        r@ == star_path(owner@, repo@),
{
    let mut p = String::new();
    p.append("user/starred/");
    p.append(owner);
    p.append("/");
    p.append(repo);
    proof {
        assert(Seq::<char>::empty() + "user/starred/"@ + owner@ + "/"@ + repo@ =~= star_path(
            owner@, repo@));
    }
    p
}

/// Builder listing the repositories the authenticated user has starred.
pub struct ListStarredBuilder {
    pub fields: Fields,
}

impl ListStarredBuilder {
    /// A listing with no option set.
    pub fn new() -> (r: Self)
        ensures
            r.fields@ == Seq::<(Seq<char>, JsonVal)>::empty(),
    {
        ListStarredBuilder { fields: Fields::new() }
    }

    /// Sets `page`; a second call replaces the first value.
    pub fn page(self, value: i32) -> (r: Self)
        ensures
            r.fields@ == fm_set(self.fields@, "page"@, JsonVal::Int(value as int)),
    {
        let mut fields = self.fields;
        fields.set("page", Json::Int(value as i64));
        ListStarredBuilder { fields }
    }

    /// Sets `limit`; a second call replaces the first value.
    pub fn limit(self, value: i32) -> (r: Self)
        ensures
            r.fields@ == fm_set(self.fields@, "limit"@, JsonVal::Int(value as int)),
    {
        let mut fields = self.fields;
        fields.set("limit", Json::Int(value as i64));
        ListStarredBuilder { fields }
    }

    /// The rendered request: a GET with the fields that are set as query
    /// parameters, in order, and no body.
    pub fn request(&self, client: &Client) -> (r: HttpRequest)
        ensures
            r.method == Method::Get,
            r.url@ == url_of(client.base_url@, "user/starred"@) + query_suffix(self.fields@),
            (match r.auth_header {
                Some(h) => auth_header_of(client.auth) == Some(h@),
                None => auth_header_of(client.auth) is None,
            }),
            r.body is None,
    {
        let path = "user/starred".to_owned();
        let mut req = client.request(Method::Get, path.as_str());
        let suffix = query_suffix_string(&self.fields);
        req.url.append(suffix.as_str());
        req
    }

    /// Interprets the raw response: a success status must carry an array
    /// of records, any other status is the server's error.
    pub fn interpret(status: u16, body: &str) -> (r: Result<Vec<Repository>, Error>)
        ensures
            is_success(status) ==> (match r {
                Ok(ms) => records_of::<Repository>(body@) == Some(ms.deep_view()),
                Err(e) => records_of::<Repository>(body@) is None && e == (Error::Decode { status }),
            }),
            !is_success(status) ==> (match r {
                Err(e) => (e matches Error::Api { status: st, message: m } && st == status && m@
                    == api_message(body@)),
                Ok(_) => false,
            }),
    {
        interpret_list::<Repository>(status, body)
    }
}

/// Builder probing whether the authenticated user has starred a repository.
pub struct IsStarredBuilder {
    pub owner: String,
    pub repo: String,
}

impl IsStarredBuilder {
    /// A probe for the star on `owner/repo`.
    pub fn new(owner: &str, repo: &str) -> (r: Self)
        ensures
            r.owner@ == owner@,
            r.repo@ == repo@,
    {
        IsStarredBuilder { owner: owner.to_owned(), repo: repo.to_owned() }
    }

    /// The rendered request: a GET with no parameters and no
    /// body.
    pub fn request(&self, client: &Client) -> (r: HttpRequest)
        ensures
            r.method == Method::Get,
            r.url@ == url_of(client.base_url@, star_path(self.owner@, self.repo@)),
            (match r.auth_header {
                Some(h) => auth_header_of(client.auth) == Some(h@),
                None => auth_header_of(client.auth) is None,
            }),
            r.body is None,
    {
        let path = render_star_path(self.owner.as_str(), self.repo.as_str());
        client.request(Method::Get, path.as_str())
    }

    /// Interprets the probe: a success status means yes, not-found means
    /// no, and every other status is a genuine error, never a no.
    pub fn interpret(status: u16, body: &str) -> (r: Result<bool, Error>)
        ensures
            is_success(status) ==> r == Ok::<bool, Error>(true),
            status == 404 ==> r == Ok::<bool, Error>(false),
            !is_success(status) && status != 404 ==> (match r {
                Err(e) => (e matches Error::Api { status: st, message: m } && st == status && m@
                    == api_message(body@)),
                Ok(_) => false,
            }),
    {
        bool_probe(status, body)
    }
}

/// Builder starring a repository for the authenticated user.
pub struct StarRepoBuilder {
    pub owner: String,
    pub repo: String,
}

impl StarRepoBuilder {
    /// A builder starring `owner/repo`.
    pub fn new(owner: &str, repo: &str) -> (r: Self)
        ensures
            r.owner@ == owner@,
            r.repo@ == repo@,
    {
        StarRepoBuilder { owner: owner.to_owned(), repo: repo.to_owned() }
    }

    /// The rendered request: a PUT with no parameters and no
    /// body.
    pub fn request(&self, client: &Client) -> (r: HttpRequest)
        ensures
            r.method == Method::Put,
            r.url@ == url_of(client.base_url@, star_path(self.owner@, self.repo@)),
            (match r.auth_header {
                Some(h) => auth_header_of(client.auth) == Some(h@),
                None => auth_header_of(client.auth) is None,
            }),
            r.body is None,
    {
        let path = render_star_path(self.owner.as_str(), self.repo.as_str());
        client.request(Method::Put, path.as_str())
    }

    /// Interprets the raw response: success carries nothing, any other
    /// status is the server's error.
    pub fn interpret(status: u16, body: &str) -> (r: Result<(), Error>)
        ensures
            is_success(status) ==> r is Ok,
            !is_success(status) ==> (match r {
                Err(e) => (e matches Error::Api { status: st, message: m } && st == status && m@
                    == api_message(body@)),
                Ok(_) => false,
            }),
    {
        expect_empty(status, body)
    }
}

/// Builder removing the authenticated user's star from a repository.
pub struct UnstarRepoBuilder {
    pub owner: String,
    pub repo: String,
}

impl UnstarRepoBuilder {
    /// A builder unstarring `owner/repo`.
    pub fn new(owner: &str, repo: &str) -> (r: Self)
        ensures
            r.owner@ == owner@,
            r.repo@ == repo@,
    {
        UnstarRepoBuilder { owner: owner.to_owned(), repo: repo.to_owned() }
    }

    /// The rendered request: a DELETE with no parameters and no
    /// body.
    pub fn request(&self, client: &Client) -> (r: HttpRequest)
        ensures
            r.method == Method::Delete,
            r.url@ == url_of(client.base_url@, star_path(self.owner@, self.repo@)),
            (match r.auth_header {
                Some(h) => auth_header_of(client.auth) == Some(h@),
                None => auth_header_of(client.auth) is None,
            }),
            r.body is None,
    {
        let path = render_star_path(self.owner.as_str(), self.repo.as_str());
        client.request(Method::Delete, path.as_str())
    }

    /// Interprets the raw response: success carries nothing, any other
    /// status is the server's error.
    pub fn interpret(status: u16, body: &str) -> (r: Result<(), Error>)
        ensures
            is_success(status) ==> r is Ok,
            !is_success(status) ==> (match r {
                Err(e) => (e matches Error::Api { status: st, message: m } && st == status && m@
                    == api_message(body@)),
                Ok(_) => false,
            }),
    {
        expect_empty(status, body)
    }
}

} // verus!
