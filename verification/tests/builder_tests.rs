//! Builders: payload assembly, request rendering, credentials.

use gitea_sdk::client::{Auth, Client, Method};
use gitea_sdk::contents::Contents;
use gitea_sdk::fields::Fields;
use gitea_sdk::json::Json;
use gitea_sdk::model::{CommitDateOptions, Identity};
use gitea_sdk::search::Search;
use gitea_sdk::user::User;

fn client() -> Client {
    Client::new("http://localhost:3000", Auth::Token("tkn".to_string()))
}

#[test]
fn create_repo_sets_only_named_fields() {
    // a builder with one optional setter invoked carries exactly the
    // required name and that one field
    let req = User
        .create_repo("x")
        .private(true)
        .request(&client());
    assert_eq!(req.method, Method::Post);
    assert_eq!(req.url, "http://localhost:3000/api/v1/user/repos");
    assert_eq!(req.body.as_deref(), Some("{\"name\":\"x\",\"private\":true}"));
}

#[test]
fn unset_optional_fields_stay_off_the_wire() {
    let req = User.create_repo("x").request(&client());
    assert_eq!(req.body.as_deref(), Some("{\"name\":\"x\"}"));

    let upd = User.update_settings().request(&client());
    assert_eq!(upd.method, Method::Patch);
    assert_eq!(upd.body.as_deref(), Some("{}"));

    let search = Search.repos().request(&client());
    assert_eq!(search.url, "http://localhost:3000/api/v1/repos/search");
    assert!(search.body.is_none());
}

#[test]
fn last_write_wins_on_repeated_setter() {
    let req = User
        .create_repo("x")
        .private(true)
        .private(false)
        .request(&client());
    assert_eq!(req.body.as_deref(), Some("{\"name\":\"x\",\"private\":false}"));

    let mut f = Fields::new();
    f.set("k", Json::Int(1));
    f.set("k", Json::Int(2));
    assert_eq!(f.body_string(), "{\"k\":2}");
}

#[test]
fn encoded_fields_round_trip_through_an_echo() {
    let mut f = Fields::new();
    f.set("a", Json::Int(1));
    f.set("b", Json::Str("x".to_string()));
    let body = f.body_string();
    let echoed = Json::parse(&body).expect("echoed body parses");
    match &echoed {
        Json::Obj(items) => {
            assert_eq!(items.len(), 2);
            assert_eq!(items[0], ("a".to_string(), Json::Int(1)));
            assert_eq!(items[1], ("b".to_string(), Json::Str("x".to_string())));
        }
        other => panic!("expected an object, got {:?}", other),
    }
    assert!(gitea_sdk::model::get_field(&echoed, "c").is_none());
}

#[test]
fn create_file_request_carries_commit_options() {
    let req = gitea_sdk::contents::create_file::CreateFileRepoBuilder::new(
        "o", "r", "dir/f.txt", "aGk=",
    )
    .author(&Identity::new("a", "a@example.com"))
    .dates(&CommitDateOptions::new(
        "2024-01-01T00:00:00Z",
        "2024-01-02T00:00:00Z",
    ))
    .message("add file")
    .request(&client());
    assert_eq!(req.method, Method::Post);
    assert_eq!(
        req.url,
        "http://localhost:3000/api/v1/repos/o/r/contents/dir/f.txt"
    );
    assert_eq!(
        req.body.as_deref(),
        Some(
            "{\"content\":\"aGk=\",\"author\":{\"name\":\"a\",\"email\":\"a@example.com\"},\
             \"dates\":{\"author\":\"2024-01-01T00:00:00Z\",\"committer\":\"2024-01-02T00:00:00Z\"},\
             \"message\":\"add file\"}"
        )
    );
}

#[test]
fn delete_and_update_file_bodies() {
    let del = gitea_sdk::contents::delete_file::DeleteFileRepoBuilder::new("o", "r", "f", "abc")
        .request(&client());
    assert_eq!(del.method, Method::Delete);
    assert_eq!(del.body.as_deref(), Some("{\"sha\":\"abc\"}"));

    let upd = gitea_sdk::contents::update_file::UpdateFileRepoBuilder::new(
        "o", "r", "f", "bmV3", "abc",
    )
    .request(&client());
    assert_eq!(upd.method, Method::Put);
    assert_eq!(
        upd.body.as_deref(),
        Some("{\"content\":\"bmV3\",\"sha\":\"abc\"}")
    );
}

#[test]
fn generate_repo_copies_git_content_by_default() {
    let req = gitea_sdk::repos::generate::GenerateRepoBuilder::new("me", "copy", "tpl", "base")
        .request(&client());
    assert_eq!(req.method, Method::Post);
    assert_eq!(
        req.url,
        "http://localhost:3000/api/v1/repos/tpl/base/generate"
    );
    assert_eq!(
        req.body.as_deref(),
        Some("{\"name\":\"copy\",\"owner\":\"me\",\"git_content\":true}")
    );
}

#[test]
fn contents_get_query_carries_the_reference() {
    let req = Contents::new("o", "r").get("src").refs("main").request(&client());
    assert_eq!(req.method, Method::Get);
    assert_eq!(
        req.url,
        "http://localhost:3000/api/v1/repos/o/r/contents/src?ref=main"
    );
    assert!(req.body.is_none());

    let bare = Contents::new("o", "r").get("src").request(&client());
    assert_eq!(bare.url, "http://localhost:3000/api/v1/repos/o/r/contents/src");
}

#[test]
fn query_values_are_percent_encoded() {
    let req = Search.repos().query("a b+é").page(2).limit(10).request(&client());
    assert_eq!(
        req.url,
        "http://localhost:3000/api/v1/repos/search?q=a%20b%2B%C3%A9&page=2&limit=10"
    );
}

#[test]
fn search_users_and_issues_paths() {
    let u = Search.users().query("dev").request(&client());
    assert_eq!(u.url, "http://localhost:3000/api/v1/users/search?q=dev");
    let i = Search.issues().query("bug").request(&client());
    assert_eq!(i.url, "http://localhost:3000/api/v1/repos/issues/search?q=bug");
}

#[test]
fn auth_headers_per_credential() {
    let anon = Client::new("http://h", Auth::Anonymous);
    assert!(anon.auth_header().is_none());

    let token = Client::new("http://h", Auth::Token("abc".to_string()));
    assert_eq!(token.auth_header().as_deref(), Some("token abc"));

    let basic = Client::new(
        "http://h",
        Auth::Basic("user".to_string(), "pass".to_string()),
    );
    assert_eq!(basic.auth_header().as_deref(), Some("Basic dXNlcjpwYXNz"));
}

#[test]
fn base64_padding_shapes() {
    // exercised through the basic-auth header: 1, 2 and 3 trailing bytes
    let one = Client::new("http://h", Auth::Basic("".to_string(), "".to_string()));
    assert_eq!(one.auth_header().as_deref(), Some("Basic Og=="));
    let two = Client::new("http://h", Auth::Basic("a".to_string(), "".to_string()));
    assert_eq!(two.auth_header().as_deref(), Some("Basic YTo="));
    let three = Client::new("http://h", Auth::Basic("ab".to_string(), "".to_string()));
    assert_eq!(three.auth_header().as_deref(), Some("Basic YWI6"));
}

#[test]
fn url_composition() {
    let c = client();
    assert_eq!(c.url_for("user"), "http://localhost:3000/api/v1/user");
    let starred = User.is_starred("o", "r").request(&c);
    assert_eq!(starred.url, "http://localhost:3000/api/v1/user/starred/o/r");
    assert_eq!(starred.method, Method::Get);
    assert_eq!(User.star_repo("o", "r").request(&c).method, Method::Put);
    assert_eq!(User.unstar_repo("o", "r").request(&c).method, Method::Delete);
}

#[test]
fn token_requests() {
    let c = client();
    let create = User
        .create_access_token("u", "t", vec!["write:repository".to_string(), "read:user".to_string()])
        .request(&c);
    assert_eq!(create.url, "http://localhost:3000/api/v1/users/u/tokens");
    assert_eq!(
        create.body.as_deref(),
        Some("{\"name\":\"t\",\"scopes\":[\"write:repository\",\"read:user\"]}")
    );
    let del = User.delete_access_token("u", "t").request(&c);
    assert_eq!(del.method, Method::Delete);
    assert_eq!(del.url, "http://localhost:3000/api/v1/users/u/tokens/t");
    let list = User.list_access_tokens("u").request(&c);
    assert_eq!(list.url, "http://localhost:3000/api/v1/users/u/tokens");
}

#[test]
fn listing_builders_paths() {
    let c = client();
    assert_eq!(
        User.list_repos().page(2).limit(10).request(&c).url,
        "http://localhost:3000/api/v1/user/repos?page=2&limit=10"
    );
    assert_eq!(
        User.orgs().request(&c).url,
        "http://localhost:3000/api/v1/user/orgs"
    );
    assert_eq!(
        User.list_starred().request(&c).url,
        "http://localhost:3000/api/v1/user/starred"
    );
    assert_eq!(
        User.current().request(&c).url,
        "http://localhost:3000/api/v1/user"
    );
    assert_eq!(
        User.get_settings().request(&c).url,
        "http://localhost:3000/api/v1/user/settings"
    );
}

#[test]
fn client_scopes_compose() {
    let c = client();
    let req = c.repos("o", "r").contents().get("f").request(&c);
    assert_eq!(req.url, "http://localhost:3000/api/v1/repos/o/r/contents/f");
    let s = c.search().repos().query("x").request(&c);
    assert_eq!(s.url, "http://localhost:3000/api/v1/repos/search?q=x");
    let u = c.user().list_repos().request(&c);
    assert_eq!(u.url, "http://localhost:3000/api/v1/user/repos");
}
