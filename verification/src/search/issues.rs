//! Searching issues.

use vstd::prelude::*;
use vstd::string::StringExecFns;

use crate::client::{auth_header_of, url_of, Client, Error, HttpRequest, Method};
use crate::fields::{fm_set, Fields};
use crate::json::{Json, JsonVal};
use crate::model::Issue;
use crate::query::{query_suffix, query_suffix_string};
use crate::response::{api_message, interpret_list, is_success, records_of};

verus! {

/// Builder for an issue search; every option is optional.
pub struct SearchIssuesBuilder {
    pub fields: Fields,
}

impl SearchIssuesBuilder {
    /// A search with no option set.
    pub fn new() -> (r: Self)
        ensures
            r.fields@ == Seq::<(Seq<char>, JsonVal)>::empty(),
    {
        SearchIssuesBuilder { fields: Fields::new() }
    }

    /// Sets `q`; a second call replaces the first value.
    pub fn query(self, value: &str) -> (r: Self)
        ensures
            r.fields@ == fm_set(self.fields@, "q"@, JsonVal::Str(value@)),
    {
        let mut fields = self.fields;
        fields.set("q", Json::Str(value.to_owned()));
        SearchIssuesBuilder { fields }
    }

    /// Sets `state`; a second call replaces the first value.
    pub fn state(self, value: &str) -> (r: Self)
        ensures
            r.fields@ == fm_set(self.fields@, "state"@, JsonVal::Str(value@)),
    {
        let mut fields = self.fields;
        fields.set("state", Json::Str(value.to_owned()));
        SearchIssuesBuilder { fields }
    }

    /// Sets `labels`; a second call replaces the first value.
    pub fn labels(self, value: &str) -> (r: Self)
        ensures
            r.fields@ == fm_set(self.fields@, "labels"@, JsonVal::Str(value@)),
    {
        let mut fields = self.fields;
        fields.set("labels", Json::Str(value.to_owned()));
        SearchIssuesBuilder { fields }
    }

    /// Sets `milestones`; a second call replaces the first value.
    pub fn milestones(self, value: &str) -> (r: Self)
        ensures
            r.fields@ == fm_set(self.fields@, "milestones"@, JsonVal::Str(value@)),
    {
        let mut fields = self.fields;
        fields.set("milestones", Json::Str(value.to_owned()));
        SearchIssuesBuilder { fields }
    }

    /// Sets `page`; a second call replaces the first value.
    pub fn page(self, value: i32) -> (r: Self)
        ensures
            r.fields@ == fm_set(self.fields@, "page"@, JsonVal::Int(value as int)),
    {
        let mut fields = self.fields;
        fields.set("page", Json::Int(value as i64));
        SearchIssuesBuilder { fields }
    }

    /// Sets `limit`; a second call replaces the first value.
    pub fn limit(self, value: i32) -> (r: Self)
        ensures
            r.fields@ == fm_set(self.fields@, "limit"@, JsonVal::Int(value as int)),
    {
        let mut fields = self.fields;
        fields.set("limit", Json::Int(value as i64));
        SearchIssuesBuilder { fields }
    }

    /// The rendered request: a GET with the fields that are set as query
    /// parameters, in order, and no body.
    pub fn request(&self, client: &Client) -> (r: HttpRequest)
        ensures
            r.method == Method::Get,
            r.url@ == url_of(client.base_url@, "repos/issues/search"@) + query_suffix(self.fields@),
            (match r.auth_header {
                Some(h) => auth_header_of(client.auth) == Some(h@),
                None => auth_header_of(client.auth) is None,
            }),
            r.body is None,
    {
        let path = "repos/issues/search".to_owned();
        let mut req = client.request(Method::Get, path.as_str());
        let suffix = query_suffix_string(&self.fields);
        req.url.append(suffix.as_str());
        req
    }

    /// Interprets the raw response: a success status must carry an array
    /// of records, any other status is the server's error.
    pub fn interpret(status: u16, body: &str) -> (r: Result<Vec<Issue>, Error>)
        ensures
            is_success(status) ==> (match r {
                Ok(ms) => records_of::<Issue>(body@) == Some(ms.deep_view()),
                Err(e) => records_of::<Issue>(body@) is None && e == (Error::Decode { status }),
            }),
            !is_success(status) ==> (match r {
                Err(e) => (e matches Error::Api { status: st, message: m } && st == status && m@
                    == api_message(body@)),
                Ok(_) => false,
            }),
    {
        interpret_list::<Issue>(status, body)
    }
}

} // verus!
