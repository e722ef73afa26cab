//! Reading and updating the authenticated user's settings.

use vstd::prelude::*;
use vstd::string::StringExecFns;

use crate::client::{auth_header_of, url_of, Client, Error, HttpRequest, Method};
use crate::fields::{fm_set, Fields};
use crate::json::{enc, Json, JsonVal};
use crate::model::UserSettings;
use crate::response::{api_message, interpret_record, is_success, record_of};

verus! {

/// Builder fetching the authenticated user's settings.
pub struct GetSettingsBuilder;

impl GetSettingsBuilder {
    /// A builder for the lookup; it has no parameters.
    pub fn new() -> (r: Self) {
        GetSettingsBuilder
    }

    /// The rendered request: a GET with no parameters and no
    /// body.
    pub fn request(&self, client: &Client) -> (r: HttpRequest)
        ensures
            r.method == Method::Get,
            r.url@ == url_of(client.base_url@, "user/settings"@),
            (match r.auth_header {
                Some(h) => auth_header_of(client.auth) == Some(h@),
                None => auth_header_of(client.auth) is None,
            }),
            r.body is None,
    {
        let path = "user/settings".to_owned();
        client.request(Method::Get, path.as_str())
    }

    /// Interprets the raw response: a success status must carry the
    /// record, any other status is the server's error.
    pub fn interpret(status: u16, body: &str) -> (r: Result<UserSettings, Error>)
        ensures
            is_success(status) ==> (match r {
                Ok(m) => record_of::<UserSettings>(body@) == Some(m@),
                Err(e) => record_of::<UserSettings>(body@) is None && e == (Error::Decode { status }),
            }),
            !is_success(status) ==> (match r {
                Err(e) => (e matches Error::Api { status: st, message: m } && st == status && m@
                    == api_message(body@)),
                Ok(_) => false,
            }),
    {
        interpret_record::<UserSettings>(status, body)
    }
}

/// Builder updating the authenticated user's settings: only the fields
/// that are set are sent, so every other setting stays as it is.
pub struct UpdateSettingsBuilder {
    pub fields: Fields,
}

impl UpdateSettingsBuilder {
    /// An update with no field set.
    pub fn new() -> (r: Self)
        ensures
            r.fields@ == Seq::<(Seq<char>, JsonVal)>::empty(),
    {
        UpdateSettingsBuilder { fields: Fields::new() }
    }

    /// Sets `description`; a second call replaces the first value.
    pub fn description(self, value: &str) -> (r: Self)
        ensures
            r.fields@ == fm_set(self.fields@, "description"@, JsonVal::Str(value@)),
    {
        let mut fields = self.fields;
        fields.set("description", Json::Str(value.to_owned()));
        UpdateSettingsBuilder { fields }
    }

    /// Sets `diff_view_style`; a second call replaces the first value.
    pub fn diff_view_style(self, value: &str) -> (r: Self)
        ensures
            r.fields@ == fm_set(self.fields@, "diff_view_style"@, JsonVal::Str(value@)),
    {
        let mut fields = self.fields;
        fields.set("diff_view_style", Json::Str(value.to_owned()));
        UpdateSettingsBuilder { fields }
    }

    /// Sets `full_name`; a second call replaces the first value.
    pub fn full_name(self, value: &str) -> (r: Self)
        ensures
            r.fields@ == fm_set(self.fields@, "full_name"@, JsonVal::Str(value@)),
    {
        let mut fields = self.fields;
        fields.set("full_name", Json::Str(value.to_owned()));
        UpdateSettingsBuilder { fields }
    }

    /// Sets `hide_activity`; a second call replaces the first value.
    pub fn hide_activity(self, value: bool) -> (r: Self)
        ensures
            r.fields@ == fm_set(self.fields@, "hide_activity"@, JsonVal::Bool(value)),
    {
        let mut fields = self.fields;
        fields.set("hide_activity", Json::Bool(value));
        UpdateSettingsBuilder { fields }
    }

    /// Sets `hide_email`; a second call replaces the first value.
    pub fn hide_email(self, value: bool) -> (r: Self)
        ensures
            r.fields@ == fm_set(self.fields@, "hide_email"@, JsonVal::Bool(value)),
    {
        let mut fields = self.fields;
        fields.set("hide_email", Json::Bool(value));
        UpdateSettingsBuilder { fields }
    }

    /// Sets `language`; a second call replaces the first value.
    pub fn language(self, value: &str) -> (r: Self)
        ensures
            r.fields@ == fm_set(self.fields@, "language"@, JsonVal::Str(value@)),
    {
        let mut fields = self.fields;
        fields.set("language", Json::Str(value.to_owned()));
        UpdateSettingsBuilder { fields }
    }

    /// Sets `location`; a second call replaces the first value.
    pub fn location(self, value: &str) -> (r: Self)
        ensures
            r.fields@ == fm_set(self.fields@, "location"@, JsonVal::Str(value@)),
    {
        let mut fields = self.fields;
        fields.set("location", Json::Str(value.to_owned()));
        UpdateSettingsBuilder { fields }
    }

    /// Sets `theme`; a second call replaces the first value.
    pub fn theme(self, value: &str) -> (r: Self)
        ensures
            r.fields@ == fm_set(self.fields@, "theme"@, JsonVal::Str(value@)),
    {
        let mut fields = self.fields;
        fields.set("theme", Json::Str(value.to_owned()));
        UpdateSettingsBuilder { fields }
    }

    /// Sets `website`; a second call replaces the first value.
    pub fn website(self, value: &str) -> (r: Self)
        ensures
            r.fields@ == fm_set(self.fields@, "website"@, JsonVal::Str(value@)),
    {
        let mut fields = self.fields;
        fields.set("website", Json::Str(value.to_owned()));
        UpdateSettingsBuilder { fields }
    }

    /// The rendered request: a PATCH whose JSON body holds
    /// exactly the fields that are set, in order.
    pub fn request(&self, client: &Client) -> (r: HttpRequest)
        ensures
            r.method == Method::Patch,
            r.url@ == url_of(client.base_url@, "user/settings"@),
            (match r.auth_header {
                Some(h) => auth_header_of(client.auth) == Some(h@),
                None => auth_header_of(client.auth) is None,
            }),
            (match r.body {
                Some(b) => b@ == enc(JsonVal::Obj(self.fields@)),
                None => false,
            }),
    {
        let path = "user/settings".to_owned();
        client.request_with_body(Method::Patch, path.as_str(), self.fields.body_string())
    }

    /// Interprets the raw response: a success status must carry the
    /// record, any other status is the server's error.
    pub fn interpret(status: u16, body: &str) -> (r: Result<UserSettings, Error>)
        ensures
            is_success(status) ==> (match r {
                Ok(m) => record_of::<UserSettings>(body@) == Some(m@),
                Err(e) => record_of::<UserSettings>(body@) is None && e == (Error::Decode { status }),
            }),
            !is_success(status) ==> (match r {
                Err(e) => (e matches Error::Api { status: st, message: m } && st == status && m@
                    == api_message(body@)),
                Ok(_) => false,
            }),
    {
        interpret_record::<UserSettings>(status, body)
    }
}

} // verus!
