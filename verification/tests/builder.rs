use linkbuilder::authorize::{AuthorizeHeaders, AuthorizeInfo, User};
use linkbuilder::error::LinkError;

fn full_builder() -> linkbuilder::authorize::UserBuilder {
    let mut b = User::new();
    b.api_key("KEY-1");
    b.partition("1234");
    b.name("alice");
    b.password("s3cret");
    b.host("example.com");
    b
}

#[test]
fn build_with_all_fields_succeeds_and_round_trips() {
    let user = full_builder().build().expect("complete builder must succeed");
    // The credential's values are observable through the authorization call.
    let info = AuthorizeInfo::new(&user, AuthorizeHeaders::default());
    let req = info.request("https://example.com/auth");
    assert_eq!(req.url, "https://example.com/auth");
    assert_eq!(req.headers.len(), 4);
    assert_eq!(req.headers[0], ("content-type".to_string(), "application/json".to_string()));
    assert_eq!(req.headers[1], ("accept".to_string(), "application/json".to_string()));
    assert_eq!(req.headers[2], ("apikey".to_string(), "KEY-1".to_string()));
    assert_eq!(req.headers[3], ("partition".to_string(), "1234".to_string()));
    let body = req.body.expect("authorization carries a body");
    assert_eq!(body, "{\"Username\":\"alice@example.com\",\"Password\":\"s3cret\"}");
}

#[test]
fn build_with_nothing_lists_all_fields_in_order() {
    let b = User::new();
    match b.build() {
        Err(LinkError::UserBuildError { value }) => {
            assert_eq!(value, vec!["api_key", "partition", "name", "password", "host"]);
        }
        other => panic!("expected a build failure, got {:?}", other.is_ok()),
    }
}

#[test]
fn build_missing_subset_lists_exactly_that_subset_in_order() {
    let mut b = User::new();
    // Supply out of order; the failure list keeps the fixed field order.
    b.host("example.com");
    b.name("alice");
    b.password("pw");
    match b.build() {
        Err(LinkError::UserBuildError { value }) => {
            assert_eq!(value, vec!["api_key", "partition"]);
        }
        other => panic!("expected a build failure, got {:?}", other.is_ok()),
    }
}

#[test]
fn build_missing_single_field_lists_only_it() {
    let mut b = full_builder();
    b.password("pw");
    let mut c = User::new();
    c.api_key("k");
    c.partition("p");
    c.name("n");
    c.host("h");
    match c.build() {
        Err(LinkError::UserBuildError { value }) => {
            assert_eq!(value, vec!["password"]);
        }
        other => panic!("expected a build failure, got {:?}", other.is_ok()),
    }
    assert!(b.build().is_ok());
}

#[test]
fn setters_overwrite_earlier_values() {
    let mut b = full_builder();
    b.password("other");
    let user = b.build().expect("complete builder must succeed");
    let info = AuthorizeInfo::new(&user, AuthorizeHeaders::default());
    let body = info.request("https://example.com/auth").body.unwrap();
    assert!(body.ends_with("\"Password\":\"other\"}"));
}

#[test]
fn auth_body_escapes_the_password() {
    let mut b = full_builder();
    b.password("p\"w\\x");
    let user = b.build().unwrap();
    let info = AuthorizeInfo::new(&user, AuthorizeHeaders::default());
    let body = info.request("https://example.com/auth").body.unwrap();
    assert_eq!(body, "{\"Username\":\"alice@example.com\",\"Password\":\"p\\\"w\\\\x\"}");
}

#[test]
fn custom_authorize_header_names_are_used() {
    let user = full_builder().build().unwrap();
    let info = AuthorizeInfo::new(&user, AuthorizeHeaders::new("x-key", "x-part"));
    let req = info.request("https://example.com/auth");
    assert_eq!(req.headers[2].0, "x-key");
    assert_eq!(req.headers[3].0, "x-part");
}

#[test]
fn user_build_error_message_is_fixed() {
    let err = User::new().build().unwrap_err();
    assert_eq!(err.message(), "Value not provided for required fields.");
}
