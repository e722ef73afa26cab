//! Access tokens of a user.

use vstd::prelude::*;
use vstd::string::StringExecFns;

use crate::client::{auth_header_of, url_of, Client, Error, HttpRequest, Method};
use crate::fields::{fm_set, Fields};
use crate::json::{enc, jviews, lemma_jviews, Json, JsonVal};
use crate::model::AccessToken;
use crate::query::{query_suffix, query_suffix_string};
use crate::response::{
    api_message, expect_empty, interpret_list, interpret_record, is_success, record_of,
    records_of,
};

verus! {

/// The operation path for `user`'s tokens.
pub open spec fn tokens_path(user: Seq<char>) -> Seq<char> {
    "users/"@ + user + "/tokens"@
}

/// Renders the tokens path.
pub fn render_tokens_path(user: &str) -> (r: String)
    ensures
        r@ == tokens_path(user@),
{
    let mut p = String::new();
    p.append("users/");
    p.append(user);
    p.append("/tokens");
    proof {
        assert(Seq::<char>::empty() + "users/"@ + user@ + "/tokens"@ =~= tokens_path(user@));
    }
    p
}

/// The operation path for one token of `user`.
pub open spec fn token_path(user: Seq<char>, token: Seq<char>) -> Seq<char> {
    tokens_path(user) + "/"@ + token
}

/// The scope names as a JSON array of strings, in order.
pub open spec fn scopes_val(ss: Seq<Seq<char>>) -> Seq<JsonVal> {
    Seq::new(ss.len(), |i: int| JsonVal::Str(ss[i]))
}

/// Builder creating an access token. This operation requires basic
/// authentication on the client.
pub struct CreateAccessTokenBuilder {
    pub user: String,
    pub fields: Fields,
}

impl CreateAccessTokenBuilder {
    /// A builder that will create a token called `name` for `user` with the
    /// given scopes. The name and the scopes are set; nothing else is.
    pub fn new(user: &str, name: &str, scopes: Vec<String>) -> (r: Self)
        ensures
            r.user@ == user@,
            r.fields@ == fm_set(
                fm_set(Seq::<(Seq<char>, JsonVal)>::empty(), "name"@, JsonVal::Str(name@)),
                "scopes"@,
                JsonVal::Arr(scopes_val(scopes.deep_view())),
            ),
    {
        let ghost gs = scopes.deep_view();
        let mut items: Vec<Json> = Vec::new();
        let n = scopes.len();
        let mut i: usize = 0;
        while i < n
            invariant
                i <= n,
                n == scopes@.len(),
                gs == scopes.deep_view(),
                gs.len() == n,
                jviews(items@) =~= scopes_val(gs.take(i as int)),
            decreases n - i,
        {
            let ghost prev = items@;
            items.push(Json::Str(scopes[i].clone()));
            proof {
                lemma_jviews(items@);
                lemma_jviews(prev);
                assert(jviews(items@) =~= jviews(prev).push(JsonVal::Str(scopes@[i as int]@)));
                assert(gs[i as int] == scopes@[i as int]@);
                assert(jviews(items@) =~= scopes_val(gs.take(i + 1 as int)));
            }
            i = i + 1;
        }
        proof {
            assert(gs.take(n as int) =~= gs);
        }
        let mut fields = Fields::new();
        fields.set("name", Json::Str(name.to_owned()));
        fields.set("scopes", Json::Arr(items));
        CreateAccessTokenBuilder { user: user.to_owned(), fields }
    }

    /// The rendered request: a POST whose JSON body holds
    /// exactly the fields that are set, in order.
    pub fn request(&self, client: &Client) -> (r: HttpRequest)
        ensures
            r.method == Method::Post,
            r.url@ == url_of(client.base_url@, tokens_path(self.user@)),
            (match r.auth_header {
                Some(h) => auth_header_of(client.auth) == Some(h@),
                None => auth_header_of(client.auth) is None,
            }),
            (match r.body {
                Some(b) => b@ == enc(JsonVal::Obj(self.fields@)),
                None => false,
            }),
    {
        let path = render_tokens_path(self.user.as_str());
        client.request_with_body(Method::Post, path.as_str(), self.fields.body_string())
    }

    /// Interprets the raw response: a success status must carry the
    /// record, any other status is the server's error.
    pub fn interpret(status: u16, body: &str) -> (r: Result<AccessToken, Error>)
        ensures
            is_success(status) ==> (match r {
                Ok(m) => record_of::<AccessToken>(body@) == Some(m@),
                Err(e) => record_of::<AccessToken>(body@) is None && e == (Error::Decode { status }),
            }),
            !is_success(status) ==> (match r {
                Err(e) => (e matches Error::Api { status: st, message: m } && st == status && m@
                    == api_message(body@)),
                Ok(_) => false,
            }),
    {
        interpret_record::<AccessToken>(status, body)
    }
}

/// Builder listing a user's access tokens. This operation requires basic
/// authentication on the client.
pub struct ListAccessTokensBuilder {
    pub user: String,
    pub fields: Fields,
}

impl ListAccessTokensBuilder {
    /// A listing of `user`'s tokens with no option set.
    pub fn new(user: &str) -> (r: Self)
        ensures
            r.user@ == user@,
            r.fields@ == Seq::<(Seq<char>, JsonVal)>::empty(),
    {
        ListAccessTokensBuilder { user: user.to_owned(), fields: Fields::new() }
    }

    /// Sets `page`; a second call replaces the first value.
    pub fn page(self, value: i32) -> (r: Self)
        ensures
            r.user == self.user,
            r.fields@ == fm_set(self.fields@, "page"@, JsonVal::Int(value as int)),
    {
        let mut fields = self.fields;
        fields.set("page", Json::Int(value as i64));
        ListAccessTokensBuilder { user: self.user, fields }
    }

    /// Sets `limit`; a second call replaces the first value.
    pub fn limit(self, value: i32) -> (r: Self)
        ensures
            r.user == self.user,
            r.fields@ == fm_set(self.fields@, "limit"@, JsonVal::Int(value as int)),
    {
        let mut fields = self.fields;
        fields.set("limit", Json::Int(value as i64));
        ListAccessTokensBuilder { user: self.user, fields }
    }

    /// The rendered request: a GET with the fields that are set as query
    /// parameters, in order, and no body.
    pub fn request(&self, client: &Client) -> (r: HttpRequest)
        ensures
            r.method == Method::Get,
            r.url@ == url_of(client.base_url@, tokens_path(self.user@)) + query_suffix(self.fields@),
            (match r.auth_header {
                Some(h) => auth_header_of(client.auth) == Some(h@),
                None => auth_header_of(client.auth) is None,
            }),
            r.body is None,
    {
        let path = render_tokens_path(self.user.as_str());
        let mut req = client.request(Method::Get, path.as_str());
        let suffix = query_suffix_string(&self.fields);
        req.url.append(suffix.as_str());
        req
    }

    /// Interprets the raw response: a success status must carry an array
    /// of records, any other status is the server's error.
    pub fn interpret(status: u16, body: &str) -> (r: Result<Vec<AccessToken>, Error>)
        ensures
            is_success(status) ==> (match r {
                Ok(ms) => records_of::<AccessToken>(body@) == Some(ms.deep_view()),
                Err(e) => records_of::<AccessToken>(body@) is None && e == (Error::Decode { status }),
            }),
            !is_success(status) ==> (match r {
                Err(e) => (e matches Error::Api { status: st, message: m } && st == status && m@
                    == api_message(body@)),
                Ok(_) => false,
            }),
    {
        interpret_list::<AccessToken>(status, body)
    }
}

/// Builder deleting one access token of a user. This operation requires
/// basic authentication on the client.
pub struct DeleteAccessTokenBuilder {
    pub user: String,
    pub token: String,
}

impl DeleteAccessTokenBuilder {
    /// A builder deleting `token` of `user`.
    pub fn new(user: &str, token: &str) -> (r: Self)
        ensures
            r.user@ == user@,
            r.token@ == token@,
    {
        DeleteAccessTokenBuilder { user: user.to_owned(), token: token.to_owned() }
    }

    /// The rendered request: a DELETE with no parameters and no
    /// body.
    pub fn request(&self, client: &Client) -> (r: HttpRequest)
        ensures
            r.method == Method::Delete,
            r.url@ == url_of(client.base_url@, token_path(self.user@, self.token@)),
            (match r.auth_header {
                Some(h) => auth_header_of(client.auth) == Some(h@),
                None => auth_header_of(client.auth) is None,
            }),
            r.body is None,
    {
        let mut path = render_tokens_path(self.user.as_str());
        path.append("/");
        path.append(self.token.as_str());
        client.request(Method::Delete, path.as_str())
    }

    /// Interprets the raw response: success carries nothing, any other
    /// status is the server's error.
    pub fn interpret(status: u16, body: &str) -> (r: Result<(), Error>)
        ensures
            is_success(status) ==> r is Ok,
            !is_success(status) ==> (match r {
                Err(e) => (e matches Error::Api { status: st, message: m } && st == status && m@
                    == api_message(body@)),
                Ok(_) => false,
            }),
    {
        expect_empty(status, body)
    }
}

} // verus!
