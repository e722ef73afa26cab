//! Searching repositories.

use vstd::prelude::*;
use vstd::string::StringExecFns;

use crate::client::{auth_header_of, url_of, Client, Error, HttpRequest, Method};
use crate::fields::{fm_set, Fields};
use crate::json::{Json, JsonVal};
use crate::model::Repository;
use crate::query::{query_suffix, query_suffix_string};
use crate::response::{api_message, enveloped_records_of, interpret_envelope, is_success};

verus! {

/// Builder for a repository search; every option is optional.
pub struct SearchRepositoriesBuilder {
    pub fields: Fields,
}

impl SearchRepositoriesBuilder {
    /// A search with no option set.
    pub fn new() -> (r: Self)
        ensures
            r.fields@ == Seq::<(Seq<char>, JsonVal)>::empty(),
    {
        SearchRepositoriesBuilder { fields: Fields::new() }
    }

    /// Sets `q`; a second call replaces the first value.
    pub fn query(self, value: &str) -> (r: Self)
        ensures
            r.fields@ == fm_set(self.fields@, "q"@, JsonVal::Str(value@)),
    {
        let mut fields = self.fields;
        fields.set("q", Json::Str(value.to_owned()));
        SearchRepositoriesBuilder { fields }
    }

    /// Sets `topic`; a second call replaces the first value.
    pub fn topic(self, value: bool) -> (r: Self)
        ensures
            r.fields@ == fm_set(self.fields@, "topic"@, JsonVal::Bool(value)),
    {
        let mut fields = self.fields;
        fields.set("topic", Json::Bool(value));
        SearchRepositoriesBuilder { fields }
    }

    /// Sets `includeDesc`; a second call replaces the first value.
    pub fn include_desc(self, value: bool) -> (r: Self)
        ensures
            r.fields@ == fm_set(self.fields@, "includeDesc"@, JsonVal::Bool(value)),
    {
        let mut fields = self.fields;
        fields.set("includeDesc", Json::Bool(value));
        SearchRepositoriesBuilder { fields }
    }

    /// Sets `uid`; a second call replaces the first value.
    pub fn uid(self, value: i64) -> (r: Self)
        ensures
            r.fields@ == fm_set(self.fields@, "uid"@, JsonVal::Int(value as int)),
    {
        let mut fields = self.fields;
        fields.set("uid", Json::Int(value));
        SearchRepositoriesBuilder { fields }
    }

    /// Sets `priority_owner_id`; a second call replaces the first value.
    pub fn priority_owner_id(self, value: i64) -> (r: Self)
        ensures
            r.fields@ == fm_set(self.fields@, "priority_owner_id"@, JsonVal::Int(value as int)),
    {
        let mut fields = self.fields;
        fields.set("priority_owner_id", Json::Int(value));
        SearchRepositoriesBuilder { fields }
    }

    /// Sets `team_id`; a second call replaces the first value.
    pub fn team_id(self, value: i64) -> (r: Self)
        ensures
            r.fields@ == fm_set(self.fields@, "team_id"@, JsonVal::Int(value as int)),
    {
        let mut fields = self.fields;
        fields.set("team_id", Json::Int(value));
        SearchRepositoriesBuilder { fields }
    }

    /// Sets `starredBy`; a second call replaces the first value.
    pub fn starred_by(self, value: i64) -> (r: Self)
        ensures
            r.fields@ == fm_set(self.fields@, "starredBy"@, JsonVal::Int(value as int)),
    {
        let mut fields = self.fields;
        fields.set("starredBy", Json::Int(value));
        SearchRepositoriesBuilder { fields }
    }

    /// Sets `private`; a second call replaces the first value.
    pub fn private(self, value: bool) -> (r: Self)
        ensures
            r.fields@ == fm_set(self.fields@, "private"@, JsonVal::Bool(value)),
    {
        let mut fields = self.fields;
        fields.set("private", Json::Bool(value));
        SearchRepositoriesBuilder { fields }
    }

    /// Sets `is_private`; a second call replaces the first value.
    pub fn is_private(self, value: bool) -> (r: Self)
        ensures
            r.fields@ == fm_set(self.fields@, "is_private"@, JsonVal::Bool(value)),
    {
        let mut fields = self.fields;
        fields.set("is_private", Json::Bool(value));
        SearchRepositoriesBuilder { fields }
    }

    /// Sets `template`; a second call replaces the first value.
    pub fn template(self, value: bool) -> (r: Self)
        ensures
            r.fields@ == fm_set(self.fields@, "template"@, JsonVal::Bool(value)),
    {
        let mut fields = self.fields;
        fields.set("template", Json::Bool(value));
        SearchRepositoriesBuilder { fields }
    }

    /// Sets `archived`; a second call replaces the first value.
    pub fn archived(self, value: bool) -> (r: Self)
        ensures
            r.fields@ == fm_set(self.fields@, "archived"@, JsonVal::Bool(value)),
    {
        let mut fields = self.fields;
        fields.set("archived", Json::Bool(value));
        SearchRepositoriesBuilder { fields }
    }

    /// Sets `mode`; a second call replaces the first value.
    pub fn mode(self, value: &str) -> (r: Self)
        ensures
            r.fields@ == fm_set(self.fields@, "mode"@, JsonVal::Str(value@)),
    {
        let mut fields = self.fields;
        fields.set("mode", Json::Str(value.to_owned()));
        SearchRepositoriesBuilder { fields }
    }

    /// Sets `exclusive`; a second call replaces the first value.
    pub fn exclusive(self, value: bool) -> (r: Self)
        ensures
            r.fields@ == fm_set(self.fields@, "exclusive"@, JsonVal::Bool(value)),
    {
        let mut fields = self.fields;
        fields.set("exclusive", Json::Bool(value));
        SearchRepositoriesBuilder { fields }
    }

    /// Sets `sort`; a second call replaces the first value.
    pub fn sort(self, value: &str) -> (r: Self)
        ensures
            r.fields@ == fm_set(self.fields@, "sort"@, JsonVal::Str(value@)),
    {
        let mut fields = self.fields;
        fields.set("sort", Json::Str(value.to_owned()));
        SearchRepositoriesBuilder { fields }
    }

    /// Sets `order`; a second call replaces the first value.
    pub fn order(self, value: &str) -> (r: Self)
        ensures
            r.fields@ == fm_set(self.fields@, "order"@, JsonVal::Str(value@)),
    {
        let mut fields = self.fields;
        fields.set("order", Json::Str(value.to_owned()));
        SearchRepositoriesBuilder { fields }
    }

    /// Sets `page`; a second call replaces the first value.
    pub fn page(self, value: i32) -> (r: Self)
        ensures
            r.fields@ == fm_set(self.fields@, "page"@, JsonVal::Int(value as int)),
    {
        let mut fields = self.fields;
        fields.set("page", Json::Int(value as i64));
        SearchRepositoriesBuilder { fields }
    }

    /// Sets `limit`; a second call replaces the first value.
    pub fn limit(self, value: i32) -> (r: Self)
        ensures
            r.fields@ == fm_set(self.fields@, "limit"@, JsonVal::Int(value as int)),
    {
        let mut fields = self.fields;
        fields.set("limit", Json::Int(value as i64));
        SearchRepositoriesBuilder { fields }
    }

    /// The rendered request: a GET with the fields that are set as query
    /// parameters, in order, and no body.
    pub fn request(&self, client: &Client) -> (r: HttpRequest)
        ensures
            r.method == Method::Get,
            r.url@ == url_of(client.base_url@, "repos/search"@) + query_suffix(self.fields@),
            (match r.auth_header {
                Some(h) => auth_header_of(client.auth) == Some(h@),
                None => auth_header_of(client.auth) is None,
            }),
            r.body is None,
    {
        let path = "repos/search".to_owned();
        let mut req = client.request(Method::Get, path.as_str());
        let suffix = query_suffix_string(&self.fields);
        req.url.append(suffix.as_str());
        req
    }

    /// Interprets the raw response: the records of the envelope's `data`
    /// array, with the `ok` flag discarded; any other status is the
    /// server's error.
    pub fn interpret(status: u16, body: &str) -> (r: Result<Vec<Repository>, Error>)
        ensures
            is_success(status) ==> (match r {
                Ok(ms) => enveloped_records_of::<Repository>(body@) == Some(ms.deep_view()),
                Err(e) => enveloped_records_of::<Repository>(body@) is None && e == (Error::Decode {
                    status,
                }),
            }),
            !is_success(status) ==> (match r {
                Err(e) => (e matches Error::Api { status: st, message: m } && st == status && m@
                    == api_message(body@)),
                Ok(_) => false,
            }),
    {
        interpret_envelope::<Repository>(status, body)
    }
}

} // verus!
