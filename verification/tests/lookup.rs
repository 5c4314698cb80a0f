use mailchimp_drive::drive::{id_member, id_text, resolve_permission_id};
use mailchimp_drive::error::IdResolutionFailure;
use mailchimp_drive::json::{Json, Member};
use mailchimp_drive::structures::GetIdForEmailResponse;

fn member(name: &str, value: &str) -> Member {
    Member { name: name.to_string(), value: value.to_string() }
}

fn text(value: &str) -> Json {
    Json::Text(value.to_string())
}

fn id(value: &str) -> Result<GetIdForEmailResponse, IdResolutionFailure> {
    Ok(GetIdForEmailResponse { id: value.to_string() })
}

#[test]
fn the_id_member_of_an_object_is_found() {
    let parsed = Some(Json::Object(vec![member("id", "\"XYZ\"")]));
    assert_eq!(id_member(&parsed), Ok(&"\"XYZ\"".to_string()));
}

#[test]
fn other_members_do_not_matter() {
    let parsed = Some(Json::Object(vec![
        member("kind", "\"drive#permissionId\""),
        member("id", "\"perm123\""),
        member("zzz", "null"),
    ]));
    assert_eq!(id_member(&parsed), Ok(&"\"perm123\"".to_string()));
}

#[test]
fn member_names_are_matched_exactly() {
    let parsed = Some(Json::Object(vec![member("ID", "\"a\""), member("id ", "\"b\"")]));
    assert_eq!(id_member(&parsed), Err(IdResolutionFailure::MissingField));
}

#[test]
fn an_object_without_id_is_a_missing_field() {
    assert_eq!(id_member(&Some(Json::Object(Vec::new()))), Err(IdResolutionFailure::MissingField));
    let parsed = Some(Json::Object(vec![member("other", "\"XYZ\"")]));
    assert_eq!(id_member(&parsed), Err(IdResolutionFailure::MissingField));
}

#[test]
fn a_document_that_is_no_object_is_unparseable() {
    let documents = vec![
        Json::Null,
        Json::Bool(false),
        Json::Number("1".to_string()),
        text("id"),
        Json::Array(vec!["{\"id\":\"XYZ\"}".to_string()]),
    ];
    for document in documents {
        assert_eq!(id_member(&Some(document)), Err(IdResolutionFailure::UnparseableBody));
    }
}

#[test]
fn no_document_is_unparseable() {
    assert_eq!(id_member(&None), Err(IdResolutionFailure::UnparseableBody));
}

#[test]
fn the_first_member_named_id_counts() {
    let parsed = Some(Json::Object(vec![member("id", "\"first\""), member("id", "null")]));
    assert_eq!(id_member(&parsed), Ok(&"\"first\"".to_string()));
}

#[test]
fn an_id_that_is_a_string_is_the_permission_id() {
    assert_eq!(id_text(Some(text("XYZ"))), id("XYZ"));
}

#[test]
fn an_empty_id_is_still_an_id() {
    assert_eq!(id_text(Some(text(""))), id(""));
}

#[test]
fn an_id_that_is_no_string_is_a_wrong_type() {
    let values = vec![
        Json::Null,
        Json::Bool(true),
        Json::Number("5".to_string()),
        Json::Array(vec!["\"XYZ\"".to_string()]),
        Json::Object(vec![member("id", "\"XYZ\"")]),
    ];
    for value in values {
        assert_eq!(id_text(Some(value)), Err(IdResolutionFailure::WrongType));
    }
    assert_eq!(id_text(None), Err(IdResolutionFailure::WrongType));
}

#[test]
fn member_lookup_finds_by_name() {
    let object = Json::Object(vec![member("a", "true"), member("b", "\"x\"")]);
    assert_eq!(object.member("b"), Some(&"\"x\"".to_string()));
    assert_eq!(object.member("a"), Some(&"true".to_string()));
    assert_eq!(object.member("c"), None);
    assert_eq!(object.member(""), None);
}

#[test]
fn only_objects_have_members() {
    assert_eq!(text("a").member("a"), None);
    assert_eq!(Json::Null.member("a"), None);
    assert_eq!(Json::Array(vec!["{\"a\":null}".to_string()]).member("a"), None);
}

#[test]
fn a_body_with_an_id_resolves_to_it() {
    assert_eq!(resolve_permission_id("{\"id\": \"XYZ\"}"), id("XYZ"));
    assert_eq!(resolve_permission_id("{\"id\":\"perm123\"}"), id("perm123"));
}

#[test]
fn a_body_is_read_as_json_and_not_taken_as_it_is() {
    assert_eq!(resolve_permission_id("  {\n \"id\" : \"a\\u0042\\\"c\\n\" }  "), id("aB\"c\n"));
    assert_eq!(resolve_permission_id("{\"id\": \"é—✓\"}"), id("é—✓"));
    assert_eq!(resolve_permission_id("{\"id\": \"\\u00e9\\ud83d\\ude00\\\\/\\t\"}"), id("é😀\\/\t"));
}

#[test]
fn an_id_that_looks_like_json_stays_a_string() {
    assert_eq!(resolve_permission_id("{\"id\": \"{\\\"id\\\": 1}\"}"), id("{\"id\": 1}"));
    assert_eq!(resolve_permission_id("{\"id\": \"null\"}"), id("null"));
    assert_eq!(resolve_permission_id("{\"id\": \"12\"}"), id("12"));
    assert_eq!(resolve_permission_id("{\"id\": \"\"}"), id(""));
}

#[test]
fn a_body_with_more_members_resolves_to_its_id() {
    let body = "{\"kind\": \"drive#permissionId\", \"id\": \"0123\", \"n\": [1, 2.5, {\"id\": null}]}";
    assert_eq!(resolve_permission_id(body), id("0123"));
}

#[test]
fn a_body_with_a_repeated_id_resolves_to_the_last() {
    assert_eq!(resolve_permission_id("{\"id\": \"a\", \"id\": \"b\"}"), id("b"));
}

#[test]
fn a_body_without_id_is_a_missing_field() {
    assert_eq!(resolve_permission_id("{}"), Err(IdResolutionFailure::MissingField));
    assert_eq!(
        resolve_permission_id("{\"error\": {\"code\": 404, \"id\": \"x\"}}"),
        Err(IdResolutionFailure::MissingField)
    );
    assert_eq!(resolve_permission_id("{\"Id\": \"XYZ\"}"), Err(IdResolutionFailure::MissingField));
}

#[test]
fn a_body_whose_id_is_no_string_is_a_wrong_type() {
    for body in [
        "{\"id\": 5}",
        "{\"id\": -1.5e3}",
        "{\"id\": 123456789012345678901234567890}",
        "{\"id\": null}",
        "{\"id\": true}",
        "{\"id\": [\"XYZ\"]}",
        "{\"id\": []}",
        "{\"id\": {\"id\": \"XYZ\"}}",
    ] {
        assert_eq!(resolve_permission_id(body), Err(IdResolutionFailure::WrongType), "{}", body);
    }
}

#[test]
fn a_body_that_is_no_json_is_unparseable() {
    for body in ["", "not json", "{", "{\"id\": \"XYZ\"", "{\"id\": \"XYZ\"} x", "{id: \"XYZ\"}", "<html>"] {
        assert_eq!(
            resolve_permission_id(body),
            Err(IdResolutionFailure::UnparseableBody),
            "{}",
            body
        );
    }
}

#[test]
fn a_body_that_is_json_but_no_object_is_unparseable() {
    for body in ["null", "true", "5", "\"id\"", "[]", "[{\"id\": \"XYZ\"}]"] {
        assert_eq!(
            resolve_permission_id(body),
            Err(IdResolutionFailure::UnparseableBody),
            "{}",
            body
        );
    }
}
