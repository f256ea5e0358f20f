use linkbuilder::authorize::{AuthResponse, AuthorizedUser, User};
use linkbuilder::document::{DocQuery, DocumentHeaders, Folder, Folders, LinkUpdater};
use linkbuilder::error::LinkError;
use linkbuilder::request::Method;
use linkbuilder::text::{i32_string, i64_string, u64_string};

fn session() -> AuthorizedUser {
    let mut b = User::new();
    b.api_key("KEY-1");
    b.partition("1234");
    b.name("alice");
    b.password("pw");
    b.host("example.com");
    let user = b.build().unwrap();
    AuthorizedUser::new(&user, &AuthResponse::new("", true, "sess-9", 7, "ok"))
}

fn folders() -> Folders {
    let mut active = Folder::new("Plats");
    active.id = Some(31);
    active.is_archived = Some(false);
    Folders::from_source(Some(vec![active]))
}

fn updater() -> LinkUpdater {
    let mut args = DocQuery::new();
    args.inlinecount("allpages");
    let mut b = LinkUpdater::new();
    b.folders(folders());
    b.headers(&DocumentHeaders::default());
    b.args(&args);
    b.url("https://example.com/api/docs");
    b.user(&session());
    b.output(&Some("/out".to_string())).expect("a given output path is accepted");
    b.build().expect("a complete builder must succeed")
}

#[test]
fn builder_with_all_fields_builds() {
    let u = updater();
    assert_eq!(u.url, "https://example.com/api/docs");
    assert_eq!(u.output, "/out");
}

#[test]
fn builder_without_an_output_path_is_refused_early() {
    let mut b = LinkUpdater::new();
    assert_eq!(b.output(&None).unwrap_err(), LinkError::BuildError);
}

#[test]
fn incomplete_builders_fail_with_the_build_error() {
    let mut b = LinkUpdater::new();
    b.url("https://example.com/api/docs");
    let err = b.build().unwrap_err();
    assert_eq!(err, LinkError::BuildError);
    assert_eq!(err.message(), "Required values not provided.");
}

#[test]
fn folder_query_pins_the_filter_to_the_resolved_id() {
    let u = updater();
    let req = u.folder_query("Plats").expect("the folder resolves");
    assert!(matches!(req.method, Method::Get));
    assert_eq!(
        req.url,
        "https://example.com/api/docs?%24filter=FolderId eq 31&%24inlinecount=allpages"
    );
    assert!(req.headers.contains(&("userapikey".to_string(), "sess-9".to_string())));
}

#[test]
fn folder_query_of_an_unknown_folder_is_nothing() {
    let u = updater();
    assert!(u.folder_query("Missing").is_none());
}

#[test]
fn link_paths_join_directory_name_and_suffix() {
    let u = updater();
    assert_eq!(u.link_path("plat_links"), "/out/plat_links.csv");
}

#[test]
fn integers_render_in_plain_decimal() {
    assert_eq!(u64_string(0), "0");
    assert_eq!(u64_string(90210), "90210");
    assert_eq!(u64_string(u64::MAX), "18446744073709551615");
    assert_eq!(i64_string(-1), "-1");
    assert_eq!(i64_string(i64::MIN), "-9223372036854775808");
    assert_eq!(i32_string(i32::MIN), "-2147483648");
    assert_eq!(i32_string(7), "7");
}
