//! Operations on the authenticated user.

pub mod create_repo;
pub mod current;
pub mod list_repos;
pub mod orgs;
pub mod settings;
pub mod starred;
pub mod tokens;

use vstd::prelude::*;

use crate::json::JsonVal;

verus! {

/// Scope over the operations of the authenticated user.
pub struct User;

impl User {
    /// A builder fetching the currently authenticated user.
    pub fn current(&self) -> (r: current::GetAuthenticatedUserBuilder) {
        current::GetAuthenticatedUserBuilder::new()
    }

    /// A builder creating a repository called `name` for the authenticated
    /// user; only the name is set.
    pub fn create_repo(&self, name: &str) -> (r: create_repo::CreateRepoBuilder)
        ensures
            r.fields@ == crate::fields::fm_set(
                Seq::<(Seq<char>, JsonVal)>::empty(),
                "name"@,
                JsonVal::Str(name@),
            ),
    {
        create_repo::CreateRepoBuilder::new(name)
    }

    /// A builder listing the authenticated user's repositories; no option
    /// is set.
    pub fn list_repos(&self) -> (r: list_repos::ListReposBuilder)
        ensures
            r.fields@ == Seq::<(Seq<char>, JsonVal)>::empty(),
    {
        list_repos::ListReposBuilder::new()
    }

    /// A builder listing the authenticated user's organizations; no option
    /// is set.
    pub fn orgs(&self) -> (r: orgs::Orgs)
        ensures
            r.fields@ == Seq::<(Seq<char>, JsonVal)>::empty(),
    {
        orgs::Orgs::new()
    }

    /// A builder creating an access token called `name` for `user` with the
    /// given scopes; requires basic authentication.
    pub fn create_access_token(
        &self,
        user: &str,
        name: &str,
        scopes: Vec<String>,
    ) -> (r: tokens::CreateAccessTokenBuilder)
        ensures
            r.user@ == user@,
            r.fields@ == crate::fields::fm_set(
                crate::fields::fm_set(
                    Seq::<(Seq<char>, JsonVal)>::empty(),
                    "name"@,
                    JsonVal::Str(name@),
                ),
                "scopes"@,
                JsonVal::Arr(tokens::scopes_val(scopes.deep_view())),
            ),
    {
        tokens::CreateAccessTokenBuilder::new(user, name, scopes)
    }

    /// A builder listing `user`'s access tokens; requires basic
    /// authentication.
    pub fn list_access_tokens(&self, username: &str) -> (r: tokens::ListAccessTokensBuilder)
        ensures
            r.user@ == username@,
            r.fields@ == Seq::<(Seq<char>, JsonVal)>::empty(),
    {
        tokens::ListAccessTokensBuilder::new(username)
    }

    /// A builder deleting `token` of `user`; requires basic authentication.
    pub fn delete_access_token(
        &self,
        user: &str,
        token: &str,
    ) -> (r: tokens::DeleteAccessTokenBuilder)
        ensures
            r.user@ == user@,
            r.token@ == token@,
    {
        tokens::DeleteAccessTokenBuilder::new(user, token)
    }

    /// A builder fetching the authenticated user's settings.
    pub fn get_settings(&self) -> (r: settings::GetSettingsBuilder) {
        settings::GetSettingsBuilder::new()
    }

    /// A builder updating the authenticated user's settings; only the
    /// fields that are set are sent.
    pub fn update_settings(&self) -> (r: settings::UpdateSettingsBuilder)
        ensures
            r.fields@ == Seq::<(Seq<char>, JsonVal)>::empty(),
    {
        settings::UpdateSettingsBuilder::new()
    }

    /// A builder listing the repositories the authenticated user has
    /// starred; no option is set.
    pub fn list_starred(&self) -> (r: starred::ListStarredBuilder)
        ensures
            r.fields@ == Seq::<(Seq<char>, JsonVal)>::empty(),
    {
        starred::ListStarredBuilder::new()
    }

    /// A builder probing whether the authenticated user has starred
    /// `owner/repo`.
    pub fn is_starred(&self, owner: &str, repo: &str) -> (r: starred::IsStarredBuilder)
        ensures
            r.owner@ == owner@,
            r.repo@ == repo@,
    {
        starred::IsStarredBuilder::new(owner, repo)
    }

    /// A builder starring `owner/repo` for the authenticated user.
    pub fn star_repo(&self, owner: &str, repo: &str) -> (r: starred::StarRepoBuilder)
        ensures
            r.owner@ == owner@,
            r.repo@ == repo@,
    {
        starred::StarRepoBuilder::new(owner, repo)
    }

    /// A builder removing the authenticated user's star from `owner/repo`.
    pub fn unstar_repo(&self, owner: &str, repo: &str) -> (r: starred::UnstarRepoBuilder)
        ensures
            r.owner@ == owner@,
            r.repo@ == repo@,
    {
        starred::UnstarRepoBuilder::new(owner, repo)
    }
}

} // verus!
