//! Updating a file in a repository.

use vstd::prelude::*;
use vstd::string::StringExecFns;

use crate::client::{auth_header_of, url_of, Client, Error, HttpRequest, Method};
use crate::contents::{contents_path, render_contents_path};
use crate::fields::{fm_set, Fields};
use crate::json::{enc, Json, JsonVal};
use crate::model::{dates_val, identity_val, CommitDateOptions, EntryMutation, Identity};
use crate::response::{api_message, interpret_record, is_success, record_of};

verus! {

/// Builder for updating a file: fixed coordinates, new content and the
/// current hash, optional commit parameters collected by fluent setters.
pub struct UpdateFileRepoBuilder {
    pub owner: String,
    pub repo: String,
    pub filepath: String,
    pub fields: Fields,
}

impl UpdateFileRepoBuilder {
    /// A builder that will replace `filepath` in `owner/repo` with the
    /// given base64 content, where `sha` is the hash of the file as it
    /// stands. Only content and hash are set; every optional field stays
    /// absent until its setter is invoked.
    pub fn new(owner: &str, repo: &str, filepath: &str, content: &str, sha: &str) -> (r: Self)
        ensures
            r.owner@ == owner@,
            r.repo@ == repo@,
            r.filepath@ == filepath@,
            r.fields@ == fm_set(
                fm_set(Seq::<(Seq<char>, JsonVal)>::empty(), "content"@, JsonVal::Str(content@)),
                "sha"@,
                JsonVal::Str(sha@),
            ),
    {
        let mut fields = Fields::new();
        fields.set("content", Json::Str(content.to_owned()));
        fields.set("sha", Json::Str(sha.to_owned()));
        UpdateFileRepoBuilder {
            owner: owner.to_owned(),
            repo: repo.to_owned(),
            filepath: filepath.to_owned(),
            fields,
        }
    }

    /// Sets `author`; a second call replaces the first value.
    pub fn author(self, value: &Identity) -> (r: Self)
        ensures
            r.owner == self.owner,
            r.repo == self.repo,
            r.filepath == self.filepath,
            r.fields@ == fm_set(self.fields@, "author"@, identity_val(*value)),
    {
        let mut fields = self.fields;
        fields.set("author", value.to_json());
        UpdateFileRepoBuilder { owner: self.owner, repo: self.repo, filepath: self.filepath, fields }
    }

    /// Sets `branch`; a second call replaces the first value.
    pub fn branch(self, value: &str) -> (r: Self)
        ensures
            r.owner == self.owner,
            r.repo == self.repo,
            r.filepath == self.filepath,
            r.fields@ == fm_set(self.fields@, "branch"@, JsonVal::Str(value@)),
    {
        let mut fields = self.fields;
        fields.set("branch", Json::Str(value.to_owned()));
        UpdateFileRepoBuilder { owner: self.owner, repo: self.repo, filepath: self.filepath, fields }
    }

    /// Sets `committer`; a second call replaces the first value.
    pub fn committer(self, value: &Identity) -> (r: Self)
        ensures
            r.owner == self.owner,
            r.repo == self.repo,
            r.filepath == self.filepath,
            r.fields@ == fm_set(self.fields@, "committer"@, identity_val(*value)),
    {
        let mut fields = self.fields;
        fields.set("committer", value.to_json());
        UpdateFileRepoBuilder { owner: self.owner, repo: self.repo, filepath: self.filepath, fields }
    }

    /// Sets `dates`; a second call replaces the first value.
    pub fn dates(self, value: &CommitDateOptions) -> (r: Self)
        ensures
            r.owner == self.owner,
            r.repo == self.repo,
            r.filepath == self.filepath,
            r.fields@ == fm_set(self.fields@, "dates"@, dates_val(*value)),
    {
        let mut fields = self.fields;
        fields.set("dates", value.to_json());
        UpdateFileRepoBuilder { owner: self.owner, repo: self.repo, filepath: self.filepath, fields }
    }

    /// Sets `from_path`; a second call replaces the first value.
    pub fn from_path(self, value: &str) -> (r: Self)
        ensures
            r.owner == self.owner,
            r.repo == self.repo,
            r.filepath == self.filepath,
            r.fields@ == fm_set(self.fields@, "from_path"@, JsonVal::Str(value@)),
    {
        let mut fields = self.fields;
        fields.set("from_path", Json::Str(value.to_owned()));
        UpdateFileRepoBuilder { owner: self.owner, repo: self.repo, filepath: self.filepath, fields }
    }

    /// Sets `message`; a second call replaces the first value.
    pub fn message(self, value: &str) -> (r: Self)
        ensures
            r.owner == self.owner,
            r.repo == self.repo,
            r.filepath == self.filepath,
            r.fields@ == fm_set(self.fields@, "message"@, JsonVal::Str(value@)),
    {
        let mut fields = self.fields;
        fields.set("message", Json::Str(value.to_owned()));
        UpdateFileRepoBuilder { owner: self.owner, repo: self.repo, filepath: self.filepath, fields }
    }

    /// Sets `new_branch`; a second call replaces the first value.
    pub fn new_branch(self, value: &str) -> (r: Self)
        ensures
            r.owner == self.owner,
            r.repo == self.repo,
            r.filepath == self.filepath,
            r.fields@ == fm_set(self.fields@, "new_branch"@, JsonVal::Str(value@)),
    {
        let mut fields = self.fields;
        fields.set("new_branch", Json::Str(value.to_owned()));
        UpdateFileRepoBuilder { owner: self.owner, repo: self.repo, filepath: self.filepath, fields }
    }

    /// Sets `signoff`; a second call replaces the first value.
    pub fn signoff(self, value: bool) -> (r: Self)
        ensures
            r.owner == self.owner,
            r.repo == self.repo,
            r.filepath == self.filepath,
            r.fields@ == fm_set(self.fields@, "signoff"@, JsonVal::Bool(value)),
    {
        let mut fields = self.fields;
        fields.set("signoff", Json::Bool(value));
        UpdateFileRepoBuilder { owner: self.owner, repo: self.repo, filepath: self.filepath, fields }
    }

    /// The rendered request: a PUT whose JSON body holds
    /// exactly the fields that are set, in order.
    pub fn request(&self, client: &Client) -> (r: HttpRequest)
        ensures
            r.method == Method::Put,
            r.url@ == url_of(client.base_url@, contents_path(self.owner@, self.repo@, self.filepath@)),
            (match r.auth_header {
                Some(h) => auth_header_of(client.auth) == Some(h@),
                None => auth_header_of(client.auth) is None,
            }),
            (match r.body {
                Some(b) => b@ == enc(JsonVal::Obj(self.fields@)),
                None => false,
            }),
    {
        let path = render_contents_path(
            self.owner.as_str(),
            self.repo.as_str(),
            self.filepath.as_str(),
        );
        client.request_with_body(Method::Put, path.as_str(), self.fields.body_string())
    }

    /// Interprets the raw response: a success status must carry the
    /// record, any other status is the server's error.
    pub fn interpret(status: u16, body: &str) -> (r: Result<EntryMutation, Error>)
        ensures
            is_success(status) ==> (match r {
                Ok(m) => record_of::<EntryMutation>(body@) == Some(m@),
                Err(e) => record_of::<EntryMutation>(body@) is None && e == (Error::Decode { status }),
            }),
            !is_success(status) ==> (match r {
                Err(e) => (e matches Error::Api { status: st, message: m } && st == status && m@
                    == api_message(body@)),
                Ok(_) => false,
            }),
    {
        interpret_record::<EntryMutation>(status, body)
    }
}

} // verus!
