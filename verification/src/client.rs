//! Transport client: credential, URL composition, and the request
//! description handed to whatever performs the HTTP exchange.

use vstd::prelude::*;
use vstd::string::StringExecFns;
use vstd::string::StrSliceExecFns;
use vstd::utf8::encode_utf8;

use crate::b64::{b64, b64_string};

verus! {

/// Credential attached to every outgoing request. Fixed for the lifetime of
/// a client.
pub enum Auth {
    /// No authentication header at all.
    Anonymous,
    /// `Authorization: token <t>`.
    Token(String),
    /// HTTP basic authentication from a user name and a password.
    Basic(String, String),
}

/// HTTP method of an operation.
#[derive(Clone, Copy, PartialEq, Eq, Structural, Debug)]
pub enum Method {
    Get,
    Post,
    Put,
    Delete,
    Patch,
}

/// A fully rendered request: everything the HTTP layer needs to perform one
/// exchange, and nothing it has to compute itself.
pub struct HttpRequest {
    pub method: Method,
    pub url: String,
    pub auth_header: Option<String>,
    pub body: Option<String>,
}

/// The `Authorization` header value a credential produces, if any.
pub open spec fn auth_header_of(a: Auth) -> Option<Seq<char>> {
    match a {
        Auth::Anonymous => None,
        Auth::Token(t) => Some("token "@ + t@),
        Auth::Basic(u, p) => Some("Basic "@ + b64(encode_utf8(u@ + ":"@ + p@))),
    }
}

/// The full URL of an operation path.
pub open spec fn url_of(base: Seq<char>, path: Seq<char>) -> Seq<char> {
    base + "/api/v1/"@ + path
}

/// Errors an operation can end in.
#[derive(Debug, Clone, PartialEq, Eq)]
pub enum Error {
    /// The exchange failed before any response arrived.
    Transport(String),
    /// The response body did not have the shape the operation expects.
    Decode { status: u16 },
    /// The server answered with a failure status; carries that status and
    /// the server's message.
    Api { status: u16, message: String },
}

/// The transport client: a base URL and a credential, both fixed at
/// construction. Clients are plain values; several with different
/// credentials can live side by side.
pub struct Client {
    pub base_url: String,
    pub auth: Auth,
}

impl Client {
    /// A client for the server at `base_url` with the given credential.
    pub fn new(base_url: &str, auth: Auth) -> (r: Client)
        ensures
            r.base_url@ == base_url@,
            r.auth == auth,
    {
        Client { base_url: base_url.to_owned(), auth }
    }

    /// The full URL for an operation path: base, the API prefix, the path.
    pub fn url_for(&self, path: &str) -> (r: String)
        ensures
            r@ == url_of(self.base_url@, path@),
    {
        let mut u = self.base_url.clone();
        u.append("/api/v1/");
        u.append(path);
        u
    }

    /// The `Authorization` header this client attaches, if any: nothing,
    /// a token header, or basic authentication with the base64 of
    /// `user:password`.
    pub fn auth_header(&self) -> (r: Option<String>)
        ensures
            (match r {
                Some(h) => auth_header_of(self.auth) == Some(h@),
                None => auth_header_of(self.auth) is None,
            }),
    {
        match &self.auth {
            Auth::Anonymous => None,
            Auth::Token(t) => {
                let mut h = String::new();
                h.append("token ");
                h.append(t.as_str());
                proof {
                    assert(Seq::<char>::empty() + "token "@ + t@ =~= "token "@ + t@);
                }
                Some(h)
            },
            Auth::Basic(u, p) => {
                let mut creds = u.clone();
                creds.append(":");
                creds.append(p.as_str());
                let bytes = creds.as_str().as_bytes_vec();
                let encoded = b64_string(&bytes);
                let mut h = String::new();
                h.append("Basic ");
                h.append(encoded.as_str());
                proof {
                    assert(creds@ == u@ + ":"@ + p@);
                    assert(Seq::<char>::empty() + "Basic "@ + encoded@ =~= "Basic "@
                        + encoded@);
                }
                Some(h)
            },
        }
    }

    /// A request with no body for an operation path, carrying this client's
    /// credential.
    pub fn request(&self, method: Method, path: &str) -> (r: HttpRequest)
        ensures
            r.method == method,
            r.url@ == url_of(self.base_url@, path@),
            (match r.auth_header {
                Some(h) => auth_header_of(self.auth) == Some(h@),
                None => auth_header_of(self.auth) is None,
            }),
            r.body is None,
    {
        HttpRequest { method, url: self.url_for(path), auth_header: self.auth_header(), body: None }
    }

    /// A request with a JSON body for an operation path, carrying this
    /// client's credential.
    pub fn request_with_body(&self, method: Method, path: &str, body: String) -> (r: HttpRequest)
        ensures
            r.method == method,
            r.url@ == url_of(self.base_url@, path@),
            (match r.auth_header {
                Some(h) => auth_header_of(self.auth) == Some(h@),
                None => auth_header_of(self.auth) is None,
            }),
            r.body == Some(body),
    {
        HttpRequest {
            method,
            url: self.url_for(path),
            auth_header: self.auth_header(),
            body: Some(body),
        }
    }
}

impl Client {
    /// The operations of the authenticated user.
    pub fn user(&self) -> (r: crate::user::User) {
        crate::user::User
    }

    /// The search operations.
    pub fn search(&self) -> (r: crate::search::Search) {
        crate::search::Search
    }

    /// The scope of the repository `owner/repo`.
    pub fn repos(&self, owner: &str, repo: &str) -> (r: crate::repos::Repos)
        ensures
            r.owner@ == owner@,
            r.repo@ == repo@,
    {
        crate::repos::Repos::new(owner, repo)
    }
}

} // verus!
