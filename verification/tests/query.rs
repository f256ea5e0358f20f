use linkbuilder::authorize::{AuthResponse, AuthorizedUser, User};
use linkbuilder::document::{DocInfo, DocQuery, DocumentHeaders};
use linkbuilder::request::Method;

#[test]
fn empty_query_is_a_lone_question_mark() {
    let q = DocQuery::new();
    assert_eq!(q.query(), "?");
}

#[test]
fn top_and_filter_serialize_in_fixed_order() {
    let mut q = DocQuery::new();
    q.filter("FolderId eq 7");
    q.top(5);
    assert_eq!(q.query(), "?%24top=5&%24filter=FolderId eq 7");
}

#[test]
fn all_six_parameters_keep_the_fixed_order() {
    let mut q = DocQuery::new();
    q.expand("Links");
    q.inlinecount("allpages");
    q.orderby("Name");
    q.filter("FolderId eq 7");
    q.skip(2);
    q.top(5);
    assert_eq!(
        q.query(),
        "?%24top=5&%24skip=2&%24filter=FolderId eq 7&%24orderby=Name&%24inlinecount=allpages&%24expand=Links"
    );
}

#[test]
fn negative_and_overwritten_values_are_accepted() {
    let mut q = DocQuery::new();
    q.top(10);
    q.top(-3);
    q.skip(0);
    assert_eq!(q.query(), "?%24top=-3&%24skip=0");
}

#[test]
fn doc_info_appends_the_query_to_the_url() {
    let mut q = DocQuery::new();
    q.inlinecount("allpages");
    let info = DocInfo::new(&DocumentHeaders::default(), &q, "https://example.com/api/folders");
    assert_eq!(info.url_ref(), "https://example.com/api/folders");
    assert_eq!(info.query(), "https://example.com/api/folders?%24inlinecount=allpages");
}

fn session() -> AuthorizedUser {
    let mut b = User::new();
    b.api_key("KEY-1");
    b.partition("1234");
    b.name("alice");
    b.password("pw");
    b.host("example.com");
    let user = b.build().unwrap();
    let auth = AuthResponse::new("", true, "sess-9", 7, "ok");
    AuthorizedUser::new(&user, &auth)
}

#[test]
fn query_request_carries_the_four_headers() {
    let q = DocQuery::new();
    let info = DocInfo::new(&DocumentHeaders::default(), &q, "https://example.com/api/folders");
    let req = info.request(&session());
    assert!(matches!(req.method, Method::Get));
    assert_eq!(req.url, "https://example.com/api/folders?");
    assert!(req.body.is_none());
    assert_eq!(req.headers.len(), 4);
    assert_eq!(req.headers[0], ("accept".to_string(), "application/json".to_string()));
    assert_eq!(req.headers[1], ("apikey".to_string(), "KEY-1".to_string()));
    assert_eq!(req.headers[2], ("partition".to_string(), "1234".to_string()));
    assert_eq!(req.headers[3], ("userapikey".to_string(), "sess-9".to_string()));
}

#[test]
fn custom_document_header_names_are_used() {
    let headers = DocumentHeaders::new("a-key", "a-part", "a-session");
    let info = DocInfo::new(&headers, &DocQuery::new(), "https://example.com/x");
    let req = info.request(&session());
    assert_eq!(req.headers[1].0, "a-key");
    assert_eq!(req.headers[2].0, "a-part");
    assert_eq!(req.headers[3].0, "a-session");
}
