use linkbuilder::document::{
    classify_item_response, collect_item_responses, item_endpoint, DocInfo, DocQuery, Document,
    DocumentHeaders, Documents, ItemResponse, STATUS_DRAFT,
};
use linkbuilder::error::LinkError;

fn doc(id: i32, name: &str, size: Option<u64>, url: Option<&str>) -> Document {
    let mut d = Document::new(id, name);
    d.file_size = size;
    d.url = url.map(|u| u.to_string());
    d
}

fn info(url: &str) -> DocInfo {
    DocInfo::new(&DocumentHeaders::default(), &DocQuery::new(), url)
}

#[test]
fn total_size_sums_present_sizes() {
    // Sizes are byte counts: 10.5 KB, absent, 3.25 KB.
    let docs = Documents::from_source(Some(vec![
        doc(1, "a", Some(10500), None),
        doc(2, "b", None, None),
        doc(3, "c", Some(3250), None),
    ]));
    assert_eq!(docs.total_size(), 13750u128);
}

#[test]
fn total_size_of_a_missing_page_is_zero() {
    assert_eq!(Documents::from_source(None).total_size(), 0);
    assert_eq!(Documents::from_source(Some(Vec::new())).total_size(), 0);
}

#[test]
fn archive_command_marks_the_copy_archived() {
    let d = doc(1, "a", None, None);
    let archived = d.apply_command("archive");
    assert_eq!(archived.is_archived, Some(true));
    assert_eq!(archived.status, None);
    assert_eq!(d.is_archived, None);
}

#[test]
fn draft_command_sets_the_draft_status() {
    let mut d = doc(1, "a", None, None);
    d.status = Some(30);
    let drafted = d.apply_command("draft");
    assert_eq!(drafted.status, Some(STATUS_DRAFT));
    assert_eq!(drafted.is_archived, None);
}

#[test]
fn unknown_commands_change_nothing() {
    let mut d = doc(1, "a", None, None);
    d.status = Some(30);
    let same = d.apply_command("publish");
    assert_eq!(same.status, Some(30));
    assert_eq!(same.is_archived, None);
    assert_eq!(same.name, "a");
}

#[test]
fn update_items_applies_the_command_to_every_record() {
    let docs = Documents::from_source(Some(vec![doc(1, "a", None, None), doc(2, "b", None, None)]));
    let drafted = docs.update_items("draft");
    assert_eq!(drafted.len(), 2);
    assert!(drafted.iter().all(|d| d.status == Some(STATUS_DRAFT)));
    assert!(Documents::from_source(None).update_items("draft").is_empty());
}

#[test]
fn item_endpoints_join_url_and_id() {
    let i = info("https://example.com/api/docs");
    assert_eq!(item_endpoint(&i, 42), "https://example.com/api/docs/42");
    assert_eq!(item_endpoint(&i, -7), "https://example.com/api/docs/-7");
    let docs = Documents::from_source(Some(vec![doc(5, "a", None, None), doc(6, "b", None, None)]));
    let endpoints = docs.item_endpoints(&i);
    assert_eq!(
        endpoints,
        vec!["https://example.com/api/docs/5".to_string(), "https://example.com/api/docs/6".to_string()]
    );
}

#[test]
fn ok_answers_are_decoded_and_others_kept_raw() {
    match classify_item_response(200, "\"stored\"".to_string()) {
        Ok(ItemResponse::Parsed(s)) => assert_eq!(s, "stored"),
        _ => panic!("an OK answer with a JSON string body must decode"),
    }
    match classify_item_response(404, "missing".to_string()) {
        Ok(ItemResponse::Other { status, body }) => {
            assert_eq!(status, 404);
            assert_eq!(body, "missing");
        }
        _ => panic!("a failing answer keeps its raw body"),
    }
}

#[test]
fn an_undecodable_ok_answer_is_the_json_error() {
    match classify_item_response(200, "not json".to_string()) {
        Err(e) => {
            assert_eq!(e, LinkError::JsonError);
            assert_eq!(e.message(), "Conversion to JSON failed.");
        }
        Ok(_) => panic!("an undecodable OK body must fail"),
    }
}

#[test]
fn batches_collect_in_order_and_fail_on_a_bad_ok_body() {
    let collected = collect_item_responses(vec![
        (200, "\"one\"".to_string()),
        (500, "boom".to_string()),
        (200, "\"three\"".to_string()),
    ])
    .expect("tolerated failures never fail the batch");
    assert_eq!(collected.len(), 3);
    assert!(matches!(&collected[0], ItemResponse::Parsed(s) if s == "one"));
    assert!(matches!(&collected[1], ItemResponse::Other { status: 500, .. }));
    assert!(matches!(&collected[2], ItemResponse::Parsed(s) if s == "three"));

    let failed = collect_item_responses(vec![(200, "nope".to_string())]);
    assert_eq!(failed.unwrap_err(), LinkError::JsonError);
}

#[test]
fn upload_request_carries_payload_folder_and_status() {
    let i = info("https://example.com/api/docs");
    let session = session();
    let d = doc(42, "report", None, None);
    let req = d.upload_request(b"hello", &i, &session, true);
    assert_eq!(req.url, "https://example.com/api/docs");
    let body = req.body.unwrap();
    assert_eq!(
        body,
        "{\"Name\":\"report\",\"FileName\":\"report.pdf\",\"File\":\"aGVsbG8=\",\"FolderId\":42,\"Status\":\"Published\",\"ConvertToPdf\":\"false\",\"IsVisible\":\"false\"}"
    );
    let draft_req = d.upload_request(b"hello", &i, &session, false);
    assert!(draft_req.body.unwrap().contains("\"Status\":\"Draft\""));
}

#[test]
fn update_plan_yields_the_commanded_copy_and_endpoint() {
    let i = info("https://example.com/api/docs");
    let d = doc(9, "a", None, None);
    let (updated, endpoint) = d.update_plan(&i, "archive");
    assert_eq!(updated.is_archived, Some(true));
    assert_eq!(endpoint, "https://example.com/api/docs/9");
}

#[test]
fn delete_request_targets_the_item_with_all_headers() {
    let i = info("https://example.com/api/docs");
    let session = session();
    let req = doc(9, "a", None, None).delete_request(&i, &session);
    assert_eq!(req.url, "https://example.com/api/docs/9");
    assert!(req.body.is_none());
    assert_eq!(req.headers.len(), 5);
    assert_eq!(req.headers[4], ("userapikey".to_string(), "sess-9".to_string()));
}

fn session() -> linkbuilder::authorize::AuthorizedUser {
    let mut b = linkbuilder::authorize::User::new();
    b.api_key("KEY-1");
    b.partition("1234");
    b.name("alice");
    b.password("pw");
    b.host("example.com");
    let user = b.build().unwrap();
    let auth = linkbuilder::authorize::AuthResponse::new("", true, "sess-9", 7, "ok");
    linkbuilder::authorize::AuthorizedUser::new(&user, &auth)
}
