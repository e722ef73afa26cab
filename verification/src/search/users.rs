//! Searching users.

use vstd::prelude::*;
use vstd::string::StringExecFns;

use crate::client::{auth_header_of, url_of, Client, Error, HttpRequest, Method};
use crate::fields::{fm_set, Fields};
use crate::json::{Json, JsonVal};
use crate::model::User;
use crate::query::{query_suffix, query_suffix_string};
use crate::response::{api_message, enveloped_records_of, interpret_envelope, is_success};

verus! {

/// Builder for a user search; every option is optional.
pub struct SearchUsersBuilder {
    pub fields: Fields,
}

impl SearchUsersBuilder {
    /// A search with no option set.
    pub fn new() -> (r: Self)
        ensures
            r.fields@ == Seq::<(Seq<char>, JsonVal)>::empty(),
    {
        SearchUsersBuilder { fields: Fields::new() }
    }

    /// Sets `q`; a second call replaces the first value.
    pub fn query(self, value: &str) -> (r: Self)
        ensures
            r.fields@ == fm_set(self.fields@, "q"@, JsonVal::Str(value@)),
    {
        let mut fields = self.fields;
        fields.set("q", Json::Str(value.to_owned()));
        SearchUsersBuilder { fields }
    }

    /// Sets `uid`; a second call replaces the first value.
    pub fn uid(self, value: i64) -> (r: Self)
        ensures
            r.fields@ == fm_set(self.fields@, "uid"@, JsonVal::Int(value as int)),
    {
        let mut fields = self.fields;
        fields.set("uid", Json::Int(value));
        SearchUsersBuilder { fields }
    }

    /// Sets `page`; a second call replaces the first value.
    pub fn page(self, value: i32) -> (r: Self)
        ensures
            r.fields@ == fm_set(self.fields@, "page"@, JsonVal::Int(value as int)),
    {
        let mut fields = self.fields;
        fields.set("page", Json::Int(value as i64));
        SearchUsersBuilder { fields }
    }

    /// Sets `limit`; a second call replaces the first value.
    pub fn limit(self, value: i32) -> (r: Self)
        ensures
            r.fields@ == fm_set(self.fields@, "limit"@, JsonVal::Int(value as int)),
    {
        let mut fields = self.fields;
        fields.set("limit", Json::Int(value as i64));
        SearchUsersBuilder { fields }
    }

    /// The rendered request: a GET with the fields that are set as query
    /// parameters, in order, and no body.
    pub fn request(&self, client: &Client) -> (r: HttpRequest)
        ensures
            r.method == Method::Get,
            r.url@ == url_of(client.base_url@, "users/search"@) + query_suffix(self.fields@),
            (match r.auth_header {
                Some(h) => auth_header_of(client.auth) == Some(h@),
                None => auth_header_of(client.auth) is None,
            }),
            r.body is None,
    {
        let path = "users/search".to_owned();
        let mut req = client.request(Method::Get, path.as_str());
        let suffix = query_suffix_string(&self.fields);
        req.url.append(suffix.as_str());
        req
    }

    /// Interprets the raw response: the records of the envelope's `data`
    /// array, with the `ok` flag discarded; any other status is the
    /// server's error.
    pub fn interpret(status: u16, body: &str) -> (r: Result<Vec<User>, Error>)
        ensures
            is_success(status) ==> (match r {
                Ok(ms) => enveloped_records_of::<User>(body@) == Some(ms.deep_view()),
                Err(e) => enveloped_records_of::<User>(body@) is None && e == (Error::Decode {
                    status,
                }),
            }),
            !is_success(status) ==> (match r {
                Err(e) => (e matches Error::Api { status: st, message: m } && st == status && m@
                    == api_message(body@)),
                Ok(_) => false,
            }),
    {
        interpret_envelope::<User>(status, body)
    }
}

} // verus!
