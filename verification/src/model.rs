//! Plain data records mirroring the server's JSON shapes, with their
//! decoders.
//!
//! Each record decodes from a parsed JSON value. Fields the record does not
//! know are ignored, so newer servers stay readable. A field the record
//! requires must be present with the right type; an optional field that is
//! absent or null decodes to its default, and a present field of the wrong
//! type is a decode failure.

use vstd::prelude::*;

use crate::fields::{jget, lemma_fm_index, lemma_fm_index_front, str_eq};
use crate::json::{jview, jviews, jview_pairs, lemma_jviews, lemma_jview_pairs, Json, JsonVal};

verus! {

/// The empty string literal's view is the empty character sequence.
pub proof fn lemma_empty_str()
    ensures
        ""@ == Seq::<char>::empty(),
{
    reveal_strlit("");
    assert(""@ =~= Seq::<char>::empty());
}

/// The first field of `v` named `key`, when `v` is an object that has it.
#[verifier::loop_isolation(false)]
pub fn get_field<'a>(v: &'a Json, key: &str) -> (r: Option<&'a Json>)
    ensures
        (match r {
            Some(f) => jget(jview(*v), key@) == Some(jview(*f)),
            None => jget(jview(*v), key@) is None,
        }),
{
    match v {
        Json::Obj(items) => {
            proof {
                lemma_jview_pairs(items@);
            }
            let n = items.len();
            let mut i: usize = 0;
            while i < n
                invariant
                    i <= n,
                    n == items@.len(),
                    forall|j: int| 0 <= j < i ==> #[trigger] jview_pairs(items@)[j].0 != key@,
                decreases n - i,
            {
                if str_eq(items[i].0.as_str(), key) {
                    proof {
                        lemma_fm_index_front(jview_pairs(items@), key@, i as int);
                    }
                    return Some(&items[i].1);
                }
                i = i + 1;
            }
            proof {
                lemma_fm_index(jview_pairs(items@), key@);
            }
            None
        },
        _ => None,
    }
}

/// A required string field.
pub open spec fn str_field(v: JsonVal, k: Seq<char>) -> Option<Seq<char>> {
    match jget(v, k) {
        Some(JsonVal::Str(s)) => Some(s),
        _ => None,
    }
}

/// An optional string field: its value, or `d` when absent or null.
pub open spec fn str_field_or(v: JsonVal, k: Seq<char>, d: Seq<char>) -> Option<Seq<char>> {
    match jget(v, k) {
        Some(JsonVal::Str(s)) => Some(s),
        Some(JsonVal::Null) => Some(d),
        None => Some(d),
        _ => None,
    }
}

/// An optional string field kept optional: absent and null decode to
/// nothing-at-all rather than a default.
pub open spec fn opt_str_field(v: JsonVal, k: Seq<char>) -> Option<Option<Seq<char>>> {
    match jget(v, k) {
        Some(JsonVal::Str(s)) => Some(Some(s)),
        Some(JsonVal::Null) => Some(None),
        None => Some(None),
        _ => None,
    }
}

/// A required integer field, within the 64-bit signed range.
pub open spec fn int_field(v: JsonVal, k: Seq<char>) -> Option<int> {
    match jget(v, k) {
        Some(JsonVal::Int(n)) => if i64::MIN <= n <= i64::MAX {
            Some(n)
        } else {
            None
        },
        _ => None,
    }
}

/// An optional boolean field: its value, or `d` when absent or null.
pub open spec fn bool_field_or(v: JsonVal, k: Seq<char>, d: bool) -> Option<bool> {
    match jget(v, k) {
        Some(JsonVal::Bool(b)) => Some(b),
        Some(JsonVal::Null) => Some(d),
        None => Some(d),
        _ => None,
    }
}

/// Reads a required string field.
pub fn get_str(v: &Json, key: &str) -> (r: Option<String>)
    ensures
        (match r {
            Some(s) => str_field(jview(*v), key@) == Some(s@),
            None => str_field(jview(*v), key@) is None,
        }),
{
    match get_field(v, key) {
        Some(f) => match f {
            Json::Str(s) => Some(s.clone()),
            _ => None,
        },
        None => None,
    }
}

/// Reads an optional string field with a default.
pub fn get_str_or(v: &Json, key: &str, d: &str) -> (r: Option<String>)
    ensures
        (match r {
            Some(s) => str_field_or(jview(*v), key@, d@) == Some(s@),
            None => str_field_or(jview(*v), key@, d@) is None,
        }),
{
    match get_field(v, key) {
        Some(f) => match f {
            Json::Str(s) => Some(s.clone()),
            Json::Null => Some(d.to_owned()),
            _ => None,
        },
        None => Some(d.to_owned()),
    }
}

/// Reads an optional string field that stays optional.
pub fn get_opt_str(v: &Json, key: &str) -> (r: Option<Option<String>>)
    ensures
        (match r {
            Some(s) => opt_str_field(jview(*v), key@) == Some(
                match s {
                    Some(t) => Some(t@),
                    None => None::<Seq<char>>,
                },
            ),
            None => opt_str_field(jview(*v), key@) is None,
        }),
{
    match get_field(v, key) {
        Some(f) => match f {
            Json::Str(s) => Some(Some(s.clone())),
            Json::Null => Some(None),
            _ => None,
        },
        None => Some(None),
    }
}

/// Reads a required integer field.
pub fn get_i64(v: &Json, key: &str) -> (r: Option<i64>)
    ensures
        (match r {
            Some(n) => int_field(jview(*v), key@) == Some(n as int),
            None => int_field(jview(*v), key@) is None,
        }),
{
    match get_field(v, key) {
        Some(f) => match f {
            Json::Int(n) => Some(*n),
            _ => None,
        },
        None => None,
    }
}

/// Reads an optional boolean field with a default.
pub fn get_bool_or(v: &Json, key: &str, d: bool) -> (r: Option<bool>)
    ensures
        (match r {
            Some(b) => bool_field_or(jview(*v), key@, d) == Some(b),
            None => bool_field_or(jview(*v), key@, d) is None,
        }),
{
    match get_field(v, key) {
        Some(f) => match f {
            Json::Bool(b) => Some(*b),
            Json::Null => Some(d),
            _ => None,
        },
        None => Some(d),
    }
}

/// A person's identity on a commit: name and email, passed through as given.
#[derive(Debug, Clone, PartialEq, Eq)]
pub struct Identity {
    pub name: String,
    pub email: String,
}

/// The wire object of an identity.
pub open spec fn identity_val(x: Identity) -> JsonVal {
    JsonVal::Obj(seq![("name"@, JsonVal::Str(x.name@)), ("email"@, JsonVal::Str(x.email@))])
}

impl Identity {
    /// An identity from a name and an email address.
    pub fn new(name: &str, email: &str) -> (r: Identity)
        ensures
            r.name@ == name@,
            r.email@ == email@,
    {
        Identity { name: name.to_owned(), email: email.to_owned() }
    }

    /// The wire object `{"name": ..., "email": ...}`.
    pub fn to_json(&self) -> (r: Json)
        ensures
            jview(r) == identity_val(*self),
    {
        let mut items: Vec<(String, Json)> = Vec::new();
        items.push(("name".to_owned(), Json::Str(self.name.clone())));
        items.push(("email".to_owned(), Json::Str(self.email.clone())));
        let r = Json::Obj(items);
        proof {
            lemma_jview_pairs(r->Obj_0@);
            assert(jview(r) == JsonVal::Obj(jview_pairs(r->Obj_0@)));
            assert(jview_pairs(r->Obj_0@) =~= seq![
                ("name"@, JsonVal::Str(self.name@)),
                ("email"@, JsonVal::Str(self.email@)),
            ]);
        }
        r
    }
}

/// Commit dates for the author and the committer, as timestamp text, passed
/// through as given.
#[derive(Debug, Clone, PartialEq, Eq)]
pub struct CommitDateOptions {
    pub author: String,
    pub committer: String,
}

/// The wire object of commit dates.
pub open spec fn dates_val(x: CommitDateOptions) -> JsonVal {
    JsonVal::Obj(
        seq![("author"@, JsonVal::Str(x.author@)), ("committer"@, JsonVal::Str(x.committer@))],
    )
}

impl CommitDateOptions {
    /// Commit dates from two timestamp strings.
    pub fn new(author: &str, committer: &str) -> (r: CommitDateOptions)
        ensures
            r.author@ == author@,
            r.committer@ == committer@,
    {
        CommitDateOptions { author: author.to_owned(), committer: committer.to_owned() }
    }

    /// The wire object `{"author": ..., "committer": ...}`.
    pub fn to_json(&self) -> (r: Json)
        ensures
            jview(r) == dates_val(*self),
    {
        let mut items: Vec<(String, Json)> = Vec::new();
        items.push(("author".to_owned(), Json::Str(self.author.clone())));
        items.push(("committer".to_owned(), Json::Str(self.committer.clone())));
        let r = Json::Obj(items);
        proof {
            lemma_jview_pairs(r->Obj_0@);
            assert(jview_pairs(r->Obj_0@) =~= seq![
                ("author"@, JsonVal::Str(self.author@)),
                ("committer"@, JsonVal::Str(self.committer@)),
            ]);
        }
        r
    }
}

/// Model of a repository record.
#[derive(Debug, Clone, PartialEq, Eq)]
pub struct Repository {
    pub id: i64,
    pub name: String,
    pub full_name: String,
    pub private: bool,
    pub description: String,
}

/// Mathematical view of a repository record.
pub ghost struct RepositoryV {
    pub id: int,
    pub name: Seq<char>,
    pub full_name: Seq<char>,
    pub private: bool,
    pub description: Seq<char>,
}

impl View for Repository {
    type V = RepositoryV;

    open spec fn view(&self) -> RepositoryV {
        RepositoryV {
            id: self.id as int,
            name: self.name@,
            full_name: self.full_name@,
            private: self.private,
            description: self.description@,
        }
    }
}

/// What a repository decodes to: `id` and `name` are required, the rest
/// defaults when absent.
pub open spec fn repo_of(v: JsonVal) -> Option<RepositoryV> {
    match int_field(v, "id"@) {
        None => None,
        Some(id) => match str_field(v, "name"@) {
            None => None,
            Some(name) => match str_field_or(v, "full_name"@, Seq::empty()) {
                None => None,
                Some(full_name) => match bool_field_or(v, "private"@, false) {
                    None => None,
                    Some(private) => match str_field_or(v, "description"@, Seq::empty()) {
                        None => None,
                        Some(description) => Some(
                            RepositoryV { id, name, full_name, private, description },
                        ),
                    },
                },
            },
        },
    }
}

impl Repository {
    /// Decodes a repository from a parsed JSON value.
    pub fn from_json(v: &Json) -> (r: Option<Repository>)
        ensures
            (match r {
                Some(m) => repo_of(jview(*v)) == Some(m@),
                None => repo_of(jview(*v)) is None,
            }),
    {
        proof {
            lemma_empty_str();
        }
        let id = match get_i64(v, "id") {
            Some(x) => x,
            None => {
                return None;
            },
        };
        let name = match get_str(v, "name") {
            Some(x) => x,
            None => {
                return None;
            },
        };
        let full_name = match get_str_or(v, "full_name", "") {
            Some(x) => x,
            None => {
                return None;
            },
        };
        let private = match get_bool_or(v, "private", false) {
            Some(x) => x,
            None => {
                return None;
            },
        };
        let description = match get_str_or(v, "description", "") {
            Some(x) => x,
            None => {
                return None;
            },
        };
        Some(Repository { id, name, full_name, private, description })
    }
}

/// Model of a user record.
#[derive(Debug, Clone, PartialEq, Eq)]
pub struct User {
    pub id: i64,
    pub login: String,
    pub full_name: String,
    pub email: String,
}

/// Mathematical view of a user record.
pub ghost struct UserV {
    pub id: int,
    pub login: Seq<char>,
    pub full_name: Seq<char>,
    pub email: Seq<char>,
}

impl View for User {
    type V = UserV;

    open spec fn view(&self) -> UserV {
        UserV { id: self.id as int, login: self.login@, full_name: self.full_name@, email: self.email@ }
    }
}

/// What a user decodes to: `id` and `login` are required.
pub open spec fn user_of(v: JsonVal) -> Option<UserV> {
    match int_field(v, "id"@) {
        None => None,
        Some(id) => match str_field(v, "login"@) {
            None => None,
            Some(login) => match str_field_or(v, "full_name"@, Seq::empty()) {
                None => None,
                Some(full_name) => match str_field_or(v, "email"@, Seq::empty()) {
                    None => None,
                    Some(email) => Some(UserV { id, login, full_name, email }),
                },
            },
        },
    }
}

impl User {
    /// Decodes a user from a parsed JSON value.
    pub fn from_json(v: &Json) -> (r: Option<User>)
        ensures
            (match r {
                Some(m) => user_of(jview(*v)) == Some(m@),
                None => user_of(jview(*v)) is None,
            }),
    {
        proof {
            lemma_empty_str();
        }
        let id = match get_i64(v, "id") {
            Some(x) => x,
            None => {
                return None;
            },
        };
        let login = match get_str(v, "login") {
            Some(x) => x,
            None => {
                return None;
            },
        };
        let full_name = match get_str_or(v, "full_name", "") {
            Some(x) => x,
            None => {
                return None;
            },
        };
        let email = match get_str_or(v, "email", "") {
            Some(x) => x,
            None => {
                return None;
            },
        };
        Some(User { id, login, full_name, email })
    }
}

/// Model of an organization record.
#[derive(Debug, Clone, PartialEq, Eq)]
pub struct Organization {
    pub id: i64,
    pub username: String,
    pub description: String,
}

/// Mathematical view of an organization record.
pub ghost struct OrganizationV {
    pub id: int,
    pub username: Seq<char>,
    pub description: Seq<char>,
}

impl View for Organization {
    type V = OrganizationV;

    open spec fn view(&self) -> OrganizationV {
        OrganizationV { id: self.id as int, username: self.username@, description: self.description@ }
    }
}

/// What an organization decodes to: `id` and `username` are required.
pub open spec fn org_of(v: JsonVal) -> Option<OrganizationV> {
    match int_field(v, "id"@) {
        None => None,
        Some(id) => match str_field(v, "username"@) {
            None => None,
            Some(username) => match str_field_or(v, "description"@, Seq::empty()) {
                None => None,
                Some(description) => Some(OrganizationV { id, username, description }),
            },
        },
    }
}

impl Organization {
    /// Decodes an organization from a parsed JSON value.
    pub fn from_json(v: &Json) -> (r: Option<Organization>)
        ensures
            (match r {
                Some(m) => org_of(jview(*v)) == Some(m@),
                None => org_of(jview(*v)) is None,
            }),
    {
        proof {
            lemma_empty_str();
        }
        let id = match get_i64(v, "id") {
            Some(x) => x,
            None => {
                return None;
            },
        };
        let username = match get_str(v, "username") {
            Some(x) => x,
            None => {
                return None;
            },
        };
        let description = match get_str_or(v, "description", "") {
            Some(x) => x,
            None => {
                return None;
            },
        };
        Some(Organization { id, username, description })
    }
}

/// Model of an access-token record.
#[derive(Debug, Clone, PartialEq, Eq)]
pub struct AccessToken {
    pub id: i64,
    pub name: String,
    pub sha1: String,
}

/// Mathematical view of an access-token record.
pub ghost struct AccessTokenV {
    pub id: int,
    pub name: Seq<char>,
    pub sha1: Seq<char>,
}

impl View for AccessToken {
    type V = AccessTokenV;

    open spec fn view(&self) -> AccessTokenV {
        AccessTokenV { id: self.id as int, name: self.name@, sha1: self.sha1@ }
    }
}

/// What an access token decodes to: `id` and `name` are required; the token
/// text defaults to empty where the server withholds it.
pub open spec fn token_of(v: JsonVal) -> Option<AccessTokenV> {
    match int_field(v, "id"@) {
        None => None,
        Some(id) => match str_field(v, "name"@) {
            None => None,
            Some(name) => match str_field_or(v, "sha1"@, Seq::empty()) {
                None => None,
                Some(sha1) => Some(AccessTokenV { id, name, sha1 }),
            },
        },
    }
}

impl AccessToken {
    /// Decodes an access token from a parsed JSON value.
    pub fn from_json(v: &Json) -> (r: Option<AccessToken>)
        ensures
            (match r {
                Some(m) => token_of(jview(*v)) == Some(m@),
                None => token_of(jview(*v)) is None,
            }),
    {
        proof {
            lemma_empty_str();
        }
        let id = match get_i64(v, "id") {
            Some(x) => x,
            None => {
                return None;
            },
        };
        let name = match get_str(v, "name") {
            Some(x) => x,
            None => {
                return None;
            },
        };
        let sha1 = match get_str_or(v, "sha1", "") {
            Some(x) => x,
            None => {
                return None;
            },
        };
        Some(AccessToken { id, name, sha1 })
    }
}

/// Model of the user settings record.
#[derive(Debug, Clone, PartialEq, Eq)]
pub struct UserSettings {
    pub theme: String,
    pub full_name: String,
    pub hide_email: bool,
    pub hide_activity: bool,
}

/// Mathematical view of the user settings record.
pub ghost struct UserSettingsV {
    pub theme: Seq<char>,
    pub full_name: Seq<char>,
    pub hide_email: bool,
    pub hide_activity: bool,
}

impl View for UserSettings {
    type V = UserSettingsV;

    open spec fn view(&self) -> UserSettingsV {
        UserSettingsV {
            theme: self.theme@,
            full_name: self.full_name@,
            hide_email: self.hide_email,
            hide_activity: self.hide_activity,
        }
    }
}

/// What user settings decode to: every field defaults when absent.
pub open spec fn settings_of(v: JsonVal) -> Option<UserSettingsV> {
    match str_field_or(v, "theme"@, Seq::empty()) {
        None => None,
        Some(theme) => match str_field_or(v, "full_name"@, Seq::empty()) {
            None => None,
            Some(full_name) => match bool_field_or(v, "hide_email"@, false) {
                None => None,
                Some(hide_email) => match bool_field_or(v, "hide_activity"@, false) {
                    None => None,
                    Some(hide_activity) => Some(
                        UserSettingsV { theme, full_name, hide_email, hide_activity },
                    ),
                },
            },
        },
    }
}

impl UserSettings {
    /// Decodes user settings from a parsed JSON value.
    pub fn from_json(v: &Json) -> (r: Option<UserSettings>)
        ensures
            (match r {
                Some(m) => settings_of(jview(*v)) == Some(m@),
                None => settings_of(jview(*v)) is None,
            }),
    {
        proof {
            lemma_empty_str();
        }
        let theme = match get_str_or(v, "theme", "") {
            Some(x) => x,
            None => {
                return None;
            },
        };
        let full_name = match get_str_or(v, "full_name", "") {
            Some(x) => x,
            None => {
                return None;
            },
        };
        let hide_email = match get_bool_or(v, "hide_email", false) {
            Some(x) => x,
            None => {
                return None;
            },
        };
        let hide_activity = match get_bool_or(v, "hide_activity", false) {
            Some(x) => x,
            None => {
                return None;
            },
        };
        Some(UserSettings { theme, full_name, hide_email, hide_activity })
    }
}

/// Model of one entry in a repository's content tree: a file or a directory.
#[derive(Debug, Clone, PartialEq, Eq)]
pub struct Entry {
    pub name: String,
    pub path: String,
    pub sha: String,
    pub entry_type: String,
    pub content: Option<String>,
}

/// Mathematical view of a content entry.
pub ghost struct EntryV {
    pub name: Seq<char>,
    pub path: Seq<char>,
    pub sha: Seq<char>,
    pub entry_type: Seq<char>,
    pub content: Option<Seq<char>>,
}

impl View for Entry {
    type V = EntryV;

    open spec fn view(&self) -> EntryV {
        EntryV {
            name: self.name@,
            path: self.path@,
            sha: self.sha@,
            entry_type: self.entry_type@,
            content: match self.content {
                Some(s) => Some(s@),
                None => None,
            },
        }
    }
}

/// What a content entry decodes to: `name` and `path` are required; the
/// entry's type and hash default to empty; file content stays optional.
pub open spec fn entry_of(v: JsonVal) -> Option<EntryV> {
    match str_field(v, "name"@) {
        None => None,
        Some(name) => match str_field(v, "path"@) {
            None => None,
            Some(path) => match str_field_or(v, "sha"@, Seq::empty()) {
                None => None,
                Some(sha) => match str_field_or(v, "type"@, Seq::empty()) {
                    None => None,
                    Some(entry_type) => match opt_str_field(v, "content"@) {
                        None => None,
                        Some(content) => Some(EntryV { name, path, sha, entry_type, content }),
                    },
                },
            },
        },
    }
}

impl Entry {
    /// Decodes a content entry from a parsed JSON value.
    pub fn from_json(v: &Json) -> (r: Option<Entry>)
        ensures
            (match r {
                Some(m) => entry_of(jview(*v)) == Some(m@),
                None => entry_of(jview(*v)) is None,
            }),
    {
        proof {
            lemma_empty_str();
        }
        let name = match get_str(v, "name") {
            Some(x) => x,
            None => {
                return None;
            },
        };
        let path = match get_str(v, "path") {
            Some(x) => x,
            None => {
                return None;
            },
        };
        let sha = match get_str_or(v, "sha", "") {
            Some(x) => x,
            None => {
                return None;
            },
        };
        let entry_type = match get_str_or(v, "type", "") {
            Some(x) => x,
            None => {
                return None;
            },
        };
        let content = match get_opt_str(v, "content") {
            Some(x) => x,
            None => {
                return None;
            },
        };
        Some(Entry { name, path, sha, entry_type, content })
    }
}

/// Model of the result of a content mutation: the new entry, when the server
/// reports one, and the commit it made.
#[derive(Debug, Clone, PartialEq, Eq)]
pub struct EntryMutation {
    pub content: Option<Entry>,
    pub commit_sha: String,
}

/// Mathematical view of a content mutation result.
pub ghost struct EntryMutationV {
    pub content: Option<EntryV>,
    pub commit_sha: Seq<char>,
}

impl View for EntryMutation {
    type V = EntryMutationV;

    open spec fn view(&self) -> EntryMutationV {
        EntryMutationV {
            content: match self.content {
                Some(e) => Some(e@),
                None => None,
            },
            commit_sha: self.commit_sha@,
        }
    }
}

/// What a content mutation decodes to: a `content` object becomes the new
/// entry (absent or null means none), and the commit's hash is read from
/// `commit.sha`, defaulting to empty.
pub open spec fn mutation_of(v: JsonVal) -> Option<EntryMutationV> {
    let content = match jget(v, "content"@) {
        None => Some(None),
        Some(JsonVal::Null) => Some(None),
        Some(c) => match entry_of(c) {
            Some(e) => Some(Some(e)),
            None => None,
        },
    };
    match content {
        None => None,
        Some(content) => {
            let commit_sha = match jget(v, "commit"@) {
                None => Some(Seq::<char>::empty()),
                Some(c) => str_field_or(c, "sha"@, Seq::empty()),
            };
            match commit_sha {
                None => None,
                Some(commit_sha) => Some(EntryMutationV { content, commit_sha }),
            }
        },
    }
}

impl EntryMutation {
    /// Decodes a content mutation result from a parsed JSON value.
    pub fn from_json(v: &Json) -> (r: Option<EntryMutation>)
        ensures
            (match r {
                Some(m) => mutation_of(jview(*v)) == Some(m@),
                None => mutation_of(jview(*v)) is None,
            }),
    {
        proof {
            lemma_empty_str();
        }
        let content = match get_field(v, "content") {
            None => None,
            Some(c) => match c {
                Json::Null => None,
                _ => match Entry::from_json(c) {
                    Some(e) => Some(e),
                    None => {
                        return None;
                    },
                },
            },
        };
        let commit_sha = match get_field(v, "commit") {
            None => String::new(),
            Some(c) => match get_str_or(c, "sha", "") {
                Some(x) => x,
                None => {
                    return None;
                },
            },
        };
        Some(EntryMutation { content, commit_sha })
    }
}

/// Model of an issue record.
#[derive(Debug, Clone, PartialEq, Eq)]
pub struct Issue {
    pub id: i64,
    pub number: i64,
    pub title: String,
    pub state: String,
    pub body: String,
}

/// Mathematical view of an issue record.
pub ghost struct IssueV {
    pub id: int,
    pub number: int,
    pub title: Seq<char>,
    pub state: Seq<char>,
    pub body: Seq<char>,
}

impl View for Issue {
    type V = IssueV;

    open spec fn view(&self) -> IssueV {
        IssueV {
            id: self.id as int,
            number: self.number as int,
            title: self.title@,
            state: self.state@,
            body: self.body@,
        }
    }
}

/// What an issue decodes to: `id`, `number` and `title` are required.
pub open spec fn issue_of(v: JsonVal) -> Option<IssueV> {
    match int_field(v, "id"@) {
        None => None,
        Some(id) => match int_field(v, "number"@) {
            None => None,
            Some(number) => match str_field(v, "title"@) {
                None => None,
                Some(title) => match str_field_or(v, "state"@, Seq::empty()) {
                    None => None,
                    Some(state) => match str_field_or(v, "body"@, Seq::empty()) {
                        None => None,
                        Some(body) => Some(IssueV { id, number, title, state, body }),
                    },
                },
            },
        },
    }
}

impl Issue {
    /// Decodes an issue from a parsed JSON value.
    pub fn from_json(v: &Json) -> (r: Option<Issue>)
        ensures
            (match r {
                Some(m) => issue_of(jview(*v)) == Some(m@),
                None => issue_of(jview(*v)) is None,
            }),
    {
        proof {
            lemma_empty_str();
        }
        let id = match get_i64(v, "id") {
            Some(x) => x,
            None => {
                return None;
            },
        };
        let number = match get_i64(v, "number") {
            Some(x) => x,
            None => {
                return None;
            },
        };
        let title = match get_str(v, "title") {
            Some(x) => x,
            None => {
                return None;
            },
        };
        let state = match get_str_or(v, "state", "") {
            Some(x) => x,
            None => {
                return None;
            },
        };
        let body = match get_str_or(v, "body", "") {
            Some(x) => x,
            None => {
                return None;
            },
        };
        Some(Issue { id, number, title, state, body })
    }
}

/// A record that decodes from a parsed JSON value.
pub trait FromJsonVal: Sized + DeepView {
    /// What the record decodes to, as its mathematical view.
    spec fn of_json(v: JsonVal) -> Option<Self::V>;

    /// Decodes one record from a parsed JSON value.
    fn decode(v: &Json) -> (r: Option<Self>)
        ensures
            (match r {
                Some(m) => Self::of_json(jview(*v)) == Some(m.deep_view()),
                None => Self::of_json(jview(*v)) is None,
            }),
    ;
}

impl DeepView for Repository {
    type V = RepositoryV;

    open spec fn deep_view(&self) -> RepositoryV {
        self.view()
    }
}

impl FromJsonVal for Repository {
    open spec fn of_json(v: JsonVal) -> Option<RepositoryV> {
        repo_of(v)
    }

    fn decode(v: &Json) -> (r: Option<Repository>) {
        Repository::from_json(v)
    }
}

impl DeepView for User {
    type V = UserV;

    open spec fn deep_view(&self) -> UserV {
        self.view()
    }
}

impl FromJsonVal for User {
    open spec fn of_json(v: JsonVal) -> Option<UserV> {
        user_of(v)
    }

    fn decode(v: &Json) -> (r: Option<User>) {
        User::from_json(v)
    }
}

impl DeepView for Organization {
    type V = OrganizationV;

    open spec fn deep_view(&self) -> OrganizationV {
        self.view()
    }
}

impl FromJsonVal for Organization {
    open spec fn of_json(v: JsonVal) -> Option<OrganizationV> {
        org_of(v)
    }

    fn decode(v: &Json) -> (r: Option<Organization>) {
        Organization::from_json(v)
    }
}

impl DeepView for AccessToken {
    type V = AccessTokenV;

    open spec fn deep_view(&self) -> AccessTokenV {
        self.view()
    }
}

impl FromJsonVal for AccessToken {
    open spec fn of_json(v: JsonVal) -> Option<AccessTokenV> {
        token_of(v)
    }

    fn decode(v: &Json) -> (r: Option<AccessToken>) {
        AccessToken::from_json(v)
    }
}

impl DeepView for Entry {
    type V = EntryV;

    open spec fn deep_view(&self) -> EntryV {
        self.view()
    }
}

impl FromJsonVal for Entry {
    open spec fn of_json(v: JsonVal) -> Option<EntryV> {
        entry_of(v)
    }

    fn decode(v: &Json) -> (r: Option<Entry>) {
        Entry::from_json(v)
    }
}

impl DeepView for Issue {
    type V = IssueV;

    open spec fn deep_view(&self) -> IssueV {
        self.view()
    }
}

impl FromJsonVal for Issue {
    open spec fn of_json(v: JsonVal) -> Option<IssueV> {
        issue_of(v)
    }

    fn decode(v: &Json) -> (r: Option<Issue>) {
        Issue::from_json(v)
    }
}

impl DeepView for EntryMutation {
    type V = EntryMutationV;

    open spec fn deep_view(&self) -> EntryMutationV {
        self.view()
    }
}

impl FromJsonVal for EntryMutation {
    open spec fn of_json(v: JsonVal) -> Option<EntryMutationV> {
        mutation_of(v)
    }

    fn decode(v: &Json) -> (r: Option<EntryMutation>) {
        EntryMutation::from_json(v)
    }
}

impl DeepView for UserSettings {
    type V = UserSettingsV;

    open spec fn deep_view(&self) -> UserSettingsV {
        self.view()
    }
}

impl FromJsonVal for UserSettings {
    open spec fn of_json(v: JsonVal) -> Option<UserSettingsV> {
        settings_of(v)
    }

    fn decode(v: &Json) -> (r: Option<UserSettings>) {
        UserSettings::from_json(v)
    }
}

/// What a list of records decodes to: every element must decode, in order.
pub open spec fn list_of<T: FromJsonVal>(items: Seq<JsonVal>) -> Option<Seq<T::V>>
    decreases items.len(),
{
    if items.len() == 0 {
        Some(Seq::empty())
    } else {
        match T::of_json(items[0]) {
            None => None,
            Some(e) => match list_of::<T>(items.drop_first()) {
                None => None,
                Some(t) => Some(seq![e] + t),
            },
        }
    }
}

/// Decodes every element of a JSON array into records, in order; fails as
/// soon as one element does not decode.
#[verifier::loop_isolation(false)]
pub fn decode_list<T: FromJsonVal>(items: &Vec<Json>) -> (r: Option<Vec<T>>)
    ensures
        (match r {
            Some(es) => list_of::<T>(jviews(items@)) == Some(es.deep_view()),
            None => list_of::<T>(jviews(items@)) is None,
        }),
{
    let ghost s = jviews(items@);
    let n = items.len();
    let mut acc: Vec<T> = Vec::new();
    let mut i: usize = 0;
    proof {
        lemma_jviews(items@);
        assert(s.skip(0) =~= s);
        assert(acc.deep_view() =~= Seq::<T::V>::empty());
        assert(forall|t: Seq<T::V>| (Seq::<T::V>::empty() + t) =~= t);
    }
    while i < n
        invariant
            i <= n,
            n == items@.len(),
            acc.deep_view().len() == i,
            (match list_of::<T>(s.skip(i as int)) {
                Some(t) => list_of::<T>(s) == Some(acc.deep_view() + t),
                None => list_of::<T>(s) is None,
            }),
        decreases n - i,
    {
        let e = match T::decode(&items[i]) {
            Some(e) => e,
            None => {
                proof {
                    let rest = s.skip(i as int);
                    assert(rest[0] == jview(items@[i as int]));
                }
                return None;
            },
        };
        let ghost prev = acc.deep_view();
        acc.push(e);
        proof {
            let rest = s.skip(i as int);
            assert(rest[0] == jview(items@[i as int]));
            assert(rest.drop_first() =~= s.skip(i + 1 as int));
            assert(acc.deep_view() =~= prev.push(e.deep_view()));
            assert(forall|t: Seq<T::V>|
                (prev.push(e.deep_view()) + t) =~= (prev + (seq![e.deep_view()] + t)));
        }
        i = i + 1;
    }
    proof {
        assert(s.skip(n as int).len() == 0);
        assert(acc.deep_view() + Seq::<T::V>::empty() =~= acc.deep_view());
    }
    Some(acc)
}

} // verus!
