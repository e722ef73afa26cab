//! Creating a repository for the authenticated user.

use vstd::prelude::*;
use vstd::string::StringExecFns;

use crate::client::{auth_header_of, url_of, Client, Error, HttpRequest, Method};
use crate::fields::{fm_set, Fields};
use crate::json::{enc, Json, JsonVal};
use crate::model::Repository;
use crate::response::{api_message, interpret_record, is_success, record_of};

verus! {

/// Builder for creating a repository: the name is fixed at construction,
/// every other option is collected by fluent setters.
pub struct CreateRepoBuilder {
    pub fields: Fields,
}

impl CreateRepoBuilder {
    /// A builder that will create a repository called `name`. Only the name
    /// is set; every optional field stays absent until its setter is
    /// invoked.
    pub fn new(name: &str) -> (r: Self)
        ensures
            r.fields@ == fm_set(
                Seq::<(Seq<char>, JsonVal)>::empty(),
                "name"@,
                JsonVal::Str(name@),
            ),
    {
        let mut fields = Fields::new();
        fields.set("name", Json::Str(name.to_owned()));
        CreateRepoBuilder { fields }
    }

    /// Sets `auto_init`; a second call replaces the first value.
    pub fn auto_init(self, value: bool) -> (r: Self)
        ensures
            r.fields@ == fm_set(self.fields@, "auto_init"@, JsonVal::Bool(value)),
    {
        let mut fields = self.fields;
        fields.set("auto_init", Json::Bool(value));
        CreateRepoBuilder { fields }
    }

    /// Sets `default_branch`; a second call replaces the first value.
    pub fn default_branch(self, value: &str) -> (r: Self)
        ensures
            r.fields@ == fm_set(self.fields@, "default_branch"@, JsonVal::Str(value@)),
    {
        let mut fields = self.fields;
        fields.set("default_branch", Json::Str(value.to_owned()));
        CreateRepoBuilder { fields }
    }

    /// Sets `description`; a second call replaces the first value.
    pub fn description(self, value: &str) -> (r: Self)
        ensures
            r.fields@ == fm_set(self.fields@, "description"@, JsonVal::Str(value@)),
    {
        let mut fields = self.fields;
        fields.set("description", Json::Str(value.to_owned()));
        CreateRepoBuilder { fields }
    }

    /// Sets `gitignores`; a second call replaces the first value.
    pub fn gitignores(self, value: &str) -> (r: Self)
        ensures
            r.fields@ == fm_set(self.fields@, "gitignores"@, JsonVal::Str(value@)),
    {
        let mut fields = self.fields;
        fields.set("gitignores", Json::Str(value.to_owned()));
        CreateRepoBuilder { fields }
    }

    /// Sets `issue_labels`; a second call replaces the first value.
    pub fn issue_labels(self, value: &str) -> (r: Self)
        ensures
            r.fields@ == fm_set(self.fields@, "issue_labels"@, JsonVal::Str(value@)),
    {
        let mut fields = self.fields;
        fields.set("issue_labels", Json::Str(value.to_owned()));
        CreateRepoBuilder { fields }
    }

    /// Sets `license`; a second call replaces the first value.
    pub fn license(self, value: &str) -> (r: Self)
        ensures
            r.fields@ == fm_set(self.fields@, "license"@, JsonVal::Str(value@)),
    {
        let mut fields = self.fields;
        fields.set("license", Json::Str(value.to_owned()));
        CreateRepoBuilder { fields }
    }

    /// Sets `private`; a second call replaces the first value.
    pub fn private(self, value: bool) -> (r: Self)
        ensures
            r.fields@ == fm_set(self.fields@, "private"@, JsonVal::Bool(value)),
    {
        let mut fields = self.fields;
        fields.set("private", Json::Bool(value));
        CreateRepoBuilder { fields }
    }

    /// Sets `readme`; a second call replaces the first value.
    pub fn readme(self, value: &str) -> (r: Self)
        ensures
            r.fields@ == fm_set(self.fields@, "readme"@, JsonVal::Str(value@)),
    {
        let mut fields = self.fields;
        fields.set("readme", Json::Str(value.to_owned()));
        CreateRepoBuilder { fields }
    }

    /// Sets `template`; a second call replaces the first value.
    pub fn template(self, value: bool) -> (r: Self)
        ensures
            r.fields@ == fm_set(self.fields@, "template"@, JsonVal::Bool(value)),
    {
        let mut fields = self.fields;
        fields.set("template", Json::Bool(value));
        CreateRepoBuilder { fields }
    }

    /// Sets `trust_model`; a second call replaces the first value.
    pub fn trust_model(self, value: &str) -> (r: Self)
        ensures
            r.fields@ == fm_set(self.fields@, "trust_model"@, JsonVal::Str(value@)),
    {
        let mut fields = self.fields;
        fields.set("trust_model", Json::Str(value.to_owned()));
        CreateRepoBuilder { fields }
    }

    /// The rendered request: a POST whose JSON body holds
    /// exactly the fields that are set, in order.
    pub fn request(&self, client: &Client) -> (r: HttpRequest)
        ensures
            r.method == Method::Post,
            r.url@ == url_of(client.base_url@, "user/repos"@),
            (match r.auth_header {
                Some(h) => auth_header_of(client.auth) == Some(h@),
                None => auth_header_of(client.auth) is None,
            }),
            (match r.body {
                Some(b) => b@ == enc(JsonVal::Obj(self.fields@)),
                None => false,
            }),
    {
        let path = "user/repos".to_owned();
        client.request_with_body(Method::Post, path.as_str(), self.fields.body_string())
    }

    /// Interprets the raw response: a success status must carry the
    /// record, any other status is the server's error.
    pub fn interpret(status: u16, body: &str) -> (r: Result<Repository, Error>)
        ensures
            is_success(status) ==> (match r {
                Ok(m) => record_of::<Repository>(body@) == Some(m@),
                Err(e) => record_of::<Repository>(body@) is None && e == (Error::Decode { status }),
            }),
            !is_success(status) ==> (match r {
                Err(e) => (e matches Error::Api { status: st, message: m } && st == status && m@
                    == api_message(body@)),
                Ok(_) => false,
            }),
    {
        interpret_record::<Repository>(status, body)
    }
}

} // verus!
