//! The authenticated user.

use vstd::prelude::*;
use crate::client::{auth_header_of, url_of, Client, Error, HttpRequest, Method};
use crate::model::User;
use crate::response::{api_message, interpret_record, is_success, record_of};

verus! {

/// Builder fetching the currently authenticated user.
pub struct GetAuthenticatedUserBuilder;

impl GetAuthenticatedUserBuilder {
    /// A builder for the lookup; it has no parameters.
    pub fn new() -> (r: Self) {
        GetAuthenticatedUserBuilder
    }

    /// The rendered request: a GET with no parameters and no
    /// body.
    pub fn request(&self, client: &Client) -> (r: HttpRequest)
        ensures
            r.method == Method::Get,
            r.url@ == url_of(client.base_url@, "user"@),
            (match r.auth_header {
                Some(h) => auth_header_of(client.auth) == Some(h@),
                None => auth_header_of(client.auth) is None,
            }),
            r.body is None,
    {
        let path = "user".to_owned();
        client.request(Method::Get, path.as_str())
    }

    /// Interprets the raw response: a success status must carry the
    /// record, any other status is the server's error.
    pub fn interpret(status: u16, body: &str) -> (r: Result<User, Error>)
        ensures
            is_success(status) ==> (match r {
                Ok(m) => record_of::<User>(body@) == Some(m@),
                Err(e) => record_of::<User>(body@) is None && e == (Error::Decode { status }),
            }),
            !is_success(status) ==> (match r {
                Err(e) => (e matches Error::Api { status: st, message: m } && st == status && m@
                    == api_message(body@)),
                Ok(_) => false,
            }),
    {
        interpret_record::<User>(status, body)
    }
}
} // verus!
