//! Response normalization: shapes, envelopes, probes, and errors.

use gitea_sdk::client::Error;
use gitea_sdk::contents::get::GetContentsRepoBuilder;
use gitea_sdk::json::Json;
use gitea_sdk::model::{AccessToken, EntryMutation, Repository, UserSettings};
use gitea_sdk::response::absent_on_not_found;
use gitea_sdk::search::repos::SearchRepositoriesBuilder;
use gitea_sdk::user::starred::{IsStarredBuilder, StarRepoBuilder};

#[test]
fn contents_list_yields_every_entry() {
    let body = "[{\"name\":\"a.txt\",\"path\":\"src/a.txt\",\"type\":\"file\"},\
                {\"name\":\"b\",\"path\":\"src/b\",\"type\":\"dir\"}]";
    let entries = GetContentsRepoBuilder::interpret(200, body).unwrap();
    assert_eq!(entries.len(), 2);
    assert_eq!(entries[0].name, "a.txt");
    assert_eq!(entries[0].entry_type, "file");
    assert_eq!(entries[1].name, "b");
    assert_eq!(entries[1].entry_type, "dir");
}

#[test]
fn contents_single_object_becomes_one_element_list() {
    let body = "{\"name\":\"a.txt\",\"path\":\"src/a.txt\",\"type\":\"file\",\
                \"content\":\"aGk=\"}";
    let entries = GetContentsRepoBuilder::interpret(200, body).unwrap();
    assert_eq!(entries.len(), 1);
    assert_eq!(entries[0].path, "src/a.txt");
    assert_eq!(entries[0].content.as_deref(), Some("aGk="));
}

#[test]
fn search_envelope_yields_exactly_the_data() {
    let body = "{\"ok\":true,\"data\":[{\"id\":1,\"name\":\"a\"},{\"id\":2,\"name\":\"b\"}]}";
    let repos = SearchRepositoriesBuilder::interpret(200, body).unwrap();
    assert_eq!(repos.len(), 2);
    assert_eq!(repos[0].id, 1);
    assert_eq!(repos[0].name, "a");
    assert_eq!(repos[1].id, 2);

    // a body without the envelope shape is a decode failure
    let bare = "[{\"id\":1,\"name\":\"a\"}]";
    assert_eq!(
        SearchRepositoriesBuilder::interpret(200, bare),
        Err(Error::Decode { status: 200 })
    );
}

#[test]
fn boolean_probe_statuses() {
    assert_eq!(IsStarredBuilder::interpret(204, ""), Ok(true));
    assert_eq!(
        IsStarredBuilder::interpret(404, "{\"message\":\"not found\"}"),
        Ok(false)
    );
    let err = IsStarredBuilder::interpret(500, "{\"message\":\"boom\"}");
    assert_eq!(
        err,
        Err(Error::Api {
            status: 500,
            message: "boom".to_string()
        })
    );
}

#[test]
fn missing_path_is_an_api_error_with_status_404() {
    let body = "{\"message\":\"GetContentsOrList\"}";
    let r = GetContentsRepoBuilder::interpret(404, body);
    assert_eq!(
        r,
        Err(Error::Api {
            status: 404,
            message: "GetContentsOrList".to_string()
        })
    );
}

#[test]
fn unparsable_success_body_is_a_decode_error() {
    assert_eq!(
        GetContentsRepoBuilder::interpret(200, "not json"),
        Err(Error::Decode { status: 200 })
    );
}

#[test]
fn error_message_falls_back_to_the_raw_body() {
    let r = StarRepoBuilder::interpret(502, "bad gateway");
    assert_eq!(
        r,
        Err(Error::Api {
            status: 502,
            message: "bad gateway".to_string()
        })
    );
}

#[test]
fn unit_operations() {
    assert_eq!(StarRepoBuilder::interpret(204, ""), Ok(()));
    assert_eq!(
        StarRepoBuilder::interpret(403, "{\"message\":\"forbidden\"}"),
        Err(Error::Api {
            status: 403,
            message: "forbidden".to_string()
        })
    );
}

#[test]
fn not_found_can_mean_absent_rather_than_failed() {
    assert_eq!(absent_on_not_found::<i64>(Ok(5)), Ok(Some(5)));
    assert_eq!(
        absent_on_not_found::<i64>(Err(Error::Api {
            status: 404,
            message: "gone".to_string()
        })),
        Ok(None)
    );
    assert_eq!(
        absent_on_not_found::<i64>(Err(Error::Api {
            status: 500,
            message: "boom".to_string()
        })),
        Err(Error::Api {
            status: 500,
            message: "boom".to_string()
        })
    );
}

#[test]
fn repository_decode_defaults_and_unknown_fields() {
    let v = Json::parse(
        "{\"id\":9,\"name\":\"r\",\"stars_count\":3,\"owner\":{\"id\":1,\"login\":\"u\"}}",
    )
    .unwrap();
    let r = Repository::from_json(&v).unwrap();
    assert_eq!(r.id, 9);
    assert_eq!(r.name, "r");
    assert_eq!(r.full_name, "");
    assert!(!r.private);
    assert_eq!(r.description, "");

    // a required field of the wrong type fails the decode
    let bad = Json::parse("{\"id\":\"9\",\"name\":\"r\"}").unwrap();
    assert!(Repository::from_json(&bad).is_none());
}

#[test]
fn entry_mutation_decode() {
    let v = Json::parse(
        "{\"content\":{\"name\":\"f\",\"path\":\"d/f\",\"sha\":\"s1\",\"type\":\"file\"},\
         \"commit\":{\"sha\":\"c1\",\"message\":\"m\"}}",
    )
    .unwrap();
    let m = EntryMutation::from_json(&v).unwrap();
    let entry = m.content.unwrap();
    assert_eq!(entry.sha, "s1");
    assert_eq!(m.commit_sha, "c1");

    let deleted = Json::parse("{\"content\":null,\"commit\":{\"sha\":\"c2\"}}").unwrap();
    let d = EntryMutation::from_json(&deleted).unwrap();
    assert!(d.content.is_none());
    assert_eq!(d.commit_sha, "c2");
}

#[test]
fn settings_and_token_decode() {
    let s = Json::parse("{\"theme\":\"dark\",\"hide_email\":true}").unwrap();
    let settings = UserSettings::from_json(&s).unwrap();
    assert_eq!(settings.theme, "dark");
    assert!(settings.hide_email);
    assert!(!settings.hide_activity);
    assert_eq!(settings.full_name, "");

    let t = Json::parse("{\"id\":4,\"name\":\"tok\",\"sha1\":\"deadbeef\"}").unwrap();
    let token = AccessToken::from_json(&t).unwrap();
    assert_eq!(token.id, 4);
    assert_eq!(token.name, "tok");
    assert_eq!(token.sha1, "deadbeef");
}
