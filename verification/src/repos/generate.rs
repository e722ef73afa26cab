//! Generating a repository from a template repository.

use vstd::prelude::*;
use vstd::string::StringExecFns;

use crate::client::{auth_header_of, url_of, Client, Error, HttpRequest, Method};
use crate::fields::{fm_set, Fields};
use crate::json::{enc, Json, JsonVal};
use crate::model::Repository;
use crate::response::{api_message, interpret_record, is_success, record_of};

verus! {

/// The operation path for generating from the template `owner/repo`.
pub open spec fn generate_path(template_owner: Seq<char>, template_repo: Seq<char>) -> Seq<char> {
    "repos/"@ + template_owner + "/"@ + template_repo + "/generate"@
}

/// Renders the generation path.
pub fn render_generate_path(template_owner: &str, template_repo: &str) -> (r: String)
    ensures
        r@ == generate_path(template_owner@, template_repo@),
{
    let mut p = String::new();
    p.append("repos/");
    p.append(template_owner);
    p.append("/");
    p.append(template_repo);
    p.append("/generate");
    proof {
        assert(Seq::<char>::empty() + "repos/"@ + template_owner@ + "/"@ + template_repo@
            + "/generate"@ =~= generate_path(template_owner@, template_repo@));
    }
    p
}

/// Builder for generating a repository from a template: the template's
/// coordinates are fixed, the new repository's name and owner are body
/// fields, and template content is copied by default.
pub struct GenerateRepoBuilder {
    pub template_owner: String,
    pub template_repo: String,
    pub fields: Fields,
}

impl GenerateRepoBuilder {
    /// A builder that will generate `owner/repo` from the template
    /// `template_owner/template_repo`. The new name, its owner and the
    /// copying of git content are set; every other field stays absent until
    /// its setter is invoked.
    pub fn new(owner: &str, repo: &str, template_owner: &str, template_repo: &str) -> (r: Self)
        ensures
            r.template_owner@ == template_owner@,
            r.template_repo@ == template_repo@,
            r.fields@ == fm_set(
                fm_set(
                    fm_set(Seq::<(Seq<char>, JsonVal)>::empty(), "name"@, JsonVal::Str(repo@)),
                    "owner"@,
                    JsonVal::Str(owner@),
                ),
                "git_content"@,
                JsonVal::Bool(true),
            ),
    {
        let mut fields = Fields::new();
        fields.set("name", Json::Str(repo.to_owned()));
        fields.set("owner", Json::Str(owner.to_owned()));
        fields.set("git_content", Json::Bool(true));
        GenerateRepoBuilder {
            template_owner: template_owner.to_owned(),
            template_repo: template_repo.to_owned(),
            fields,
        }
    }

    /// Sets `avatar`; a second call replaces the first value.
    pub fn avatar(self, value: bool) -> (r: Self)
        ensures
            r.template_owner == self.template_owner,
            r.template_repo == self.template_repo,
            r.fields@ == fm_set(self.fields@, "avatar"@, JsonVal::Bool(value)),
    {
        let mut fields = self.fields;
        fields.set("avatar", Json::Bool(value));
        GenerateRepoBuilder { template_owner: self.template_owner, template_repo: self.template_repo, fields }
    }

    /// Sets `default_branch`; a second call replaces the first value.
    pub fn default_branch(self, value: bool) -> (r: Self)
        ensures
            r.template_owner == self.template_owner,
            r.template_repo == self.template_repo,
            r.fields@ == fm_set(self.fields@, "default_branch"@, JsonVal::Bool(value)),
    {
        let mut fields = self.fields;
        fields.set("default_branch", Json::Bool(value));
        GenerateRepoBuilder { template_owner: self.template_owner, template_repo: self.template_repo, fields }
    }

    /// Sets `description`; a second call replaces the first value.
    pub fn description(self, value: &str) -> (r: Self)
        ensures
            r.template_owner == self.template_owner,
            r.template_repo == self.template_repo,
            r.fields@ == fm_set(self.fields@, "description"@, JsonVal::Str(value@)),
    {
        let mut fields = self.fields;
        fields.set("description", Json::Str(value.to_owned()));
        GenerateRepoBuilder { template_owner: self.template_owner, template_repo: self.template_repo, fields }
    }

    /// Sets `git_content`; a second call replaces the first value.
    pub fn git_content(self, value: bool) -> (r: Self)
        ensures
            r.template_owner == self.template_owner,
            r.template_repo == self.template_repo,
            r.fields@ == fm_set(self.fields@, "git_content"@, JsonVal::Bool(value)),
    {
        let mut fields = self.fields;
        fields.set("git_content", Json::Bool(value));
        GenerateRepoBuilder { template_owner: self.template_owner, template_repo: self.template_repo, fields }
    }

    /// Sets `git_hooks`; a second call replaces the first value.
    pub fn git_hooks(self, value: bool) -> (r: Self)
        ensures
            r.template_owner == self.template_owner,
            r.template_repo == self.template_repo,
            r.fields@ == fm_set(self.fields@, "git_hooks"@, JsonVal::Bool(value)),
    {
        let mut fields = self.fields;
        fields.set("git_hooks", Json::Bool(value));
        GenerateRepoBuilder { template_owner: self.template_owner, template_repo: self.template_repo, fields }
    }

    /// Sets `labels`; a second call replaces the first value.
    pub fn labels(self, value: bool) -> (r: Self)
        ensures
            r.template_owner == self.template_owner,
            r.template_repo == self.template_repo,
            r.fields@ == fm_set(self.fields@, "labels"@, JsonVal::Bool(value)),
    {
        let mut fields = self.fields;
        fields.set("labels", Json::Bool(value));
        GenerateRepoBuilder { template_owner: self.template_owner, template_repo: self.template_repo, fields }
    }

    /// Sets `private`; a second call replaces the first value.
    pub fn private(self, value: bool) -> (r: Self)
        ensures
            r.template_owner == self.template_owner,
            r.template_repo == self.template_repo,
            r.fields@ == fm_set(self.fields@, "private"@, JsonVal::Bool(value)),
    {
        let mut fields = self.fields;
        fields.set("private", Json::Bool(value));
        GenerateRepoBuilder { template_owner: self.template_owner, template_repo: self.template_repo, fields }
    }

    /// Sets `topics`; a second call replaces the first value.
    pub fn topics(self, value: bool) -> (r: Self)
        ensures
            r.template_owner == self.template_owner,
            r.template_repo == self.template_repo,
            r.fields@ == fm_set(self.fields@, "topics"@, JsonVal::Bool(value)),
    {
        let mut fields = self.fields;
        fields.set("topics", Json::Bool(value));
        GenerateRepoBuilder { template_owner: self.template_owner, template_repo: self.template_repo, fields }
    }

    /// Sets `webhooks`; a second call replaces the first value.
    pub fn webhooks(self, value: bool) -> (r: Self)
        ensures
            r.template_owner == self.template_owner,
            r.template_repo == self.template_repo,
            r.fields@ == fm_set(self.fields@, "webhooks"@, JsonVal::Bool(value)),
    {
        let mut fields = self.fields;
        fields.set("webhooks", Json::Bool(value));
        GenerateRepoBuilder { template_owner: self.template_owner, template_repo: self.template_repo, fields }
    }

    /// The rendered request: a POST whose JSON body holds
    /// exactly the fields that are set, in order.
    pub fn request(&self, client: &Client) -> (r: HttpRequest)
        ensures
            r.method == Method::Post,
            r.url@ == url_of(client.base_url@, generate_path(self.template_owner@, self.template_repo@)),
            (match r.auth_header {
                Some(h) => auth_header_of(client.auth) == Some(h@),
                None => auth_header_of(client.auth) is None,
            }),
            (match r.body {
                Some(b) => b@ == enc(JsonVal::Obj(self.fields@)),
                None => false,
            }),
    {
        let path = render_generate_path(self.template_owner.as_str(), self.template_repo.as_str());
        client.request_with_body(Method::Post, path.as_str(), self.fields.body_string())
    }

    /// Interprets the raw response: a success status must carry the
    /// record, any other status is the server's error.
    pub fn interpret(status: u16, body: &str) -> (r: Result<Repository, Error>)
        ensures
            is_success(status) ==> (match r {
                Ok(m) => record_of::<Repository>(body@) == Some(m@),
                Err(e) => record_of::<Repository>(body@) is None && e == (Error::Decode { status }),
            }),
            !is_success(status) ==> (match r {
                Err(e) => (e matches Error::Api { status: st, message: m } && st == status && m@
                    == api_message(body@)),
                Ok(_) => false,
            }),
    {
        interpret_record::<Repository>(status, body)
    }
}

} // verus!
