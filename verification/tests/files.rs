use linkbuilder::document::{Document, DocumentLinks, Documents};
use linkbuilder::error::LinkError;
use linkbuilder::file::{collect_uploads, FileNames, UploadOutcome};
use linkbuilder::names::NameMap;

fn entry(k: &str, v: &str) -> (String, String) {
    (k.to_string(), v.to_string())
}

fn links_of(names: &[&str]) -> DocumentLinks {
    let mut m = NameMap::new();
    for n in names {
        m.insert(n.to_string(), format!("https://example.com/{}", n));
    }
    DocumentLinks::new(m)
}

#[test]
fn not_in_keeps_exactly_the_unlinked_names_with_their_paths() {
    let local = FileNames::from_entries(&vec![
        entry("a", "/files/a.pdf"),
        entry("b", "/files/b.pdf"),
        entry("c", "/files/c.pdf"),
    ]);
    let diff = local.not_in(&links_of(&["b"]));
    assert_eq!(
        diff.names().entries_ref(),
        &vec![entry("a", "/files/a.pdf"), entry("c", "/files/c.pdf")]
    );
}

#[test]
fn not_in_of_disjoint_sets_keeps_everything() {
    let local = FileNames::from_entries(&vec![entry("a", "/a"), entry("b", "/b")]);
    let diff = local.not_in(&links_of(&["x", "y"]));
    assert_eq!(diff.names().entries_ref().len(), 2);
    let all = local.not_in(&links_of(&[]));
    assert_eq!(all.names().entries_ref(), &vec![entry("a", "/a"), entry("b", "/b")]);
}

#[test]
fn from_entries_keeps_the_last_path_of_a_repeated_name() {
    let local = FileNames::from_entries(&vec![entry("a", "/old"), entry("a", "/new")]);
    let names = local.names();
    assert_eq!(names.entries_ref().len(), 1);
    assert_eq!(names.get(&"a".to_string()), Some(&"/new".to_string()));
}

#[test]
fn name_map_insert_replaces_and_get_resolves() {
    let mut m = NameMap::new();
    m.insert("a".to_string(), "1".to_string());
    m.insert("b".to_string(), "2".to_string());
    m.insert("a".to_string(), "3".to_string());
    assert_eq!(m.len(), 2);
    assert_eq!(m.get(&"a".to_string()), Some(&"3".to_string()));
    assert_eq!(m.get(&"b".to_string()), Some(&"2".to_string()));
    assert_eq!(m.get(&"c".to_string()), None);
    assert!(m.contains_key(&"b".to_string()));
    assert!(!m.contains_key(&"c".to_string()));
}

#[test]
fn upload_batch_tolerates_one_failing_item() {
    // Item 2 answers a server failure: the batch still succeeds with the
    // other two results, in order.
    let outcomes = vec![
        UploadOutcome { status: 200, body: "\"one\"".to_string() },
        UploadOutcome { status: 500, body: "server failure".to_string() },
        UploadOutcome { status: 201, body: "\"three\"".to_string() },
    ];
    let results = collect_uploads(&outcomes).expect("per-item failures are tolerated");
    assert_eq!(results, vec!["one".to_string(), "three".to_string()]);
}

#[test]
fn upload_batch_fails_when_an_accepted_body_is_not_json() {
    let outcomes = vec![UploadOutcome { status: 200, body: "not json".to_string() }];
    assert_eq!(collect_uploads(&outcomes).unwrap_err(), LinkError::JsonError);
}

#[test]
fn upload_request_uses_the_given_folder_id() {
    let info = linkbuilder::document::DocInfo::new(
        &linkbuilder::document::DocumentHeaders::default(),
        &linkbuilder::document::DocQuery::new(),
        "https://example.com/api/docs",
    );
    let req = FileNames::upload_request("plan", b"hello", &info, &session(), 42);
    let body = req.body.unwrap();
    assert!(body.contains("\"FolderId\":42"));
    assert!(body.contains("\"File\":\"aGVsbG8=\""));
    assert!(body.contains("\"FileName\":\"plan.pdf\""));
    assert!(body.contains("\"Status\":\"Published\""));
}

#[test]
fn links_gathered_from_documents_keep_the_last_url_per_name() {
    let mut a = Document::new(1, "a");
    a.url = Some("https://example.com/a1".to_string());
    let b = Document::new(2, "b");
    let mut a2 = Document::new(3, "a");
    a2.url = Some("https://example.com/a2".to_string());
    let docs = Documents::from_source(Some(vec![a, b, a2]));
    let links = DocumentLinks::from_documents(&docs);
    assert_eq!(links.ref_links().len(), 1);
    assert_eq!(links.ref_links().get(&"a".to_string()), Some(&"https://example.com/a2".to_string()));
    assert_eq!(links.ref_links().get(&"b".to_string()), None);
}

#[test]
fn file_names_mirror_a_link_set() {
    let links = links_of(&["a", "b"]);
    let names = FileNames::from_links(&links);
    assert_eq!(names.names().entries_ref().len(), 2);
    assert_eq!(
        names.names().get(&"a".to_string()),
        Some(&"https://example.com/a".to_string())
    );
}

fn session() -> linkbuilder::authorize::AuthorizedUser {
    let mut b = linkbuilder::authorize::User::new();
    b.api_key("KEY-1");
    b.partition("1234");
    b.name("alice");
    b.password("pw");
    b.host("example.com");
    let user = b.build().unwrap();
    let auth = linkbuilder::authorize::AuthResponse::new("", true, "sess-9", 7, "ok");
    linkbuilder::authorize::AuthorizedUser::new(&user, &auth)
}
