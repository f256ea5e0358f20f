//! One full pass over the pipeline with simulated wire answers: authorize,
//! resolve a folder, query its documents, total their sizes, and upload the
//! one local file the store does not hold yet.
use linkbuilder::authorize::{accept_auth_status, AuthResponse, AuthorizedUser, User};
use linkbuilder::document::{
    accept_query_status, DocInfo, DocQuery, Document, DocumentHeaders, DocumentLinks, Folder,
    Folders,
};
use linkbuilder::error::LinkError;
use linkbuilder::file::{collect_uploads, FileNames, UploadOutcome};

#[test]
fn end_to_end_sync_of_one_folder() {
    // Authenticate: the simulated endpoint answers 200 with a fixed session.
    accept_auth_status(200).expect("the OK status authorizes");
    let mut b = User::new();
    b.api_key("KEY-1");
    b.partition("1234");
    b.name("alice");
    b.password("pw");
    b.host("example.com");
    let user = b.build().unwrap();
    let auth = AuthResponse::new("", true, "session-abc", 77, "Welcome");
    assert!(auth.success());
    assert_eq!(auth.api_key(), "session-abc");
    let session = AuthorizedUser::new(&user, &auth);
    assert_eq!(session.api_key(), "KEY-1");
    assert_eq!(session.user_api_key(), "session-abc");

    // Query folders: the simulated page holds one active folder "Test".
    accept_query_status(200).expect("the OK status answers the query");
    let mut folder = Folder::new("Test");
    folder.id = Some(42);
    folder.is_archived = Some(false);
    let folders = Folders::from_source(Some(vec![folder]));
    let id = folders.get_id("Test");
    assert_eq!(id, Some(42));
    let id = id.unwrap();

    // Query the documents of that folder.
    let mut args = DocQuery::new();
    args.inlinecount("allpages");
    args.filter(&format!("FolderId eq {}", id));
    let info = DocInfo::new(&DocumentHeaders::default(), &args, "https://example.com/api/docs");
    let req = info.request(&session);
    assert_eq!(
        req.url,
        "https://example.com/api/docs?%24filter=FolderId eq 42&%24inlinecount=allpages"
    );
    assert!(req.headers.contains(&("userapikey".to_string(), "session-abc".to_string())));

    // The simulated answer holds one stored document with its size and url.
    let mut stored = Document::new(9, "existing_doc");
    stored.file_size = Some(10500);
    stored.url = Some("https://example.com/view/9".to_string());
    let docs = linkbuilder::document::Documents::from_source(Some(vec![stored]));
    assert_eq!(docs.total_size(), 10500u128);

    // The local directory holds one synced file and one new file.
    let links = DocumentLinks::from_documents(&docs);
    let local = FileNames::from_entries(&vec![
        ("existing_doc".to_string(), "/out/existing_doc.pdf".to_string()),
        ("new_doc".to_string(), "/out/new_doc.pdf".to_string()),
    ]);
    let diff = local.not_in(&links);
    assert_eq!(diff.names().entries_ref(), &vec![(
        "new_doc".to_string(),
        "/out/new_doc.pdf".to_string(),
    )]);

    // Upload the new file into the resolved folder.
    let req = FileNames::upload_request("new_doc", b"fresh data", &info, &session, id);
    let body = req.body.unwrap();
    assert!(body.contains("\"FolderId\":42"));
    assert!(body.contains("\"Name\":\"new_doc\""));

    // The simulated store answers 201 with the stored id.
    let results = collect_uploads(&vec![UploadOutcome {
        status: 201,
        body: "\"stored-as-101\"".to_string(),
    }])
    .expect("the accepted answer decodes");
    assert_eq!(results, vec!["stored-as-101".to_string()]);
}

#[test]
fn failing_statuses_stay_uniform_failures() {
    assert_eq!(accept_auth_status(401).unwrap_err(), LinkError::AuthError);
    assert_eq!(accept_query_status(500).unwrap_err(), LinkError::AuthError);
    assert_eq!(accept_query_status(404).unwrap_err().message(), "Authorization failed.");
}
