use notes_server::convert::note_is_fetchable;
use notes_server::css::CSS;
use notes_server::pages::render_index_page;
use notes_server::router::{handle_request, route, Route};

fn strings(v: &[&str]) -> Vec<String> {
    v.iter().map(|s| s.to_string()).collect()
}

#[test]
fn route_splits_requests_three_ways() {
    assert!(matches!(route("/"), Route::Index));
    match route("/notes/sub/a.org") {
        Route::Note(name) => assert_eq!(name, "sub/a.org"),
        _ => panic!("a notes path must route to a note"),
    }
    assert!(matches!(route("/anything/else"), Route::Other));
    assert!(matches!(route(""), Route::Other));
    assert!(matches!(route("/notes"), Route::Other));
}

#[test]
fn index_request_lists_catalog() {
    let files = strings(&["a.org", "b.md"]);
    let (body, status) = handle_request("/", &files, None);
    assert_eq!(status, 200);
    assert_eq!(body, render_index_page(&files));
    assert!(body.contains("<li><a href=\"/notes/a.org\">a.org</a></li>"));
    assert!(body.contains("<li><a href=\"/notes/b.md\">b.md</a></li>"));
}

#[test]
fn org_note_request_renders_heading() {
    let files = strings(&["a.org", "b.md"]);
    let (body, status) = handle_request("/notes/a.org", &files, Some("* Heading\n"));
    assert_eq!(status, 200);
    assert!(body.starts_with(CSS));
    assert!(body.contains("headerbar"));
    assert!(body.contains("<h1>Heading</h1>"));
}

#[test]
fn missing_note_request_is_not_found() {
    let files = strings(&["a.org"]);
    let (body, status) = handle_request("/notes/missing.md", &files, None);
    assert_eq!(status, 404);
    assert!(body.contains("404 Not Found"));
}

#[test]
fn unmatched_request_is_plain_not_found() {
    let files = strings(&["a.org"]);
    let (body, status) = handle_request("/anything/else", &files, None);
    assert_eq!(status, 404);
    assert_eq!(body, "404 Not Found");
}

#[test]
fn traversal_request_is_not_found() {
    let files = strings(&["a.org"]);
    let (_, status) = handle_request("/notes/../secret.org", &files, Some("* secret\n"));
    assert_eq!(status, 404);
}

#[test]
fn fetchability_guards_reads() {
    assert!(note_is_fetchable("a.org"));
    assert!(note_is_fetchable("sub/dir/b.md"));
    assert!(!note_is_fetchable("../a.org"));
    assert!(!note_is_fetchable("sub/../../a.org"));
    assert!(!note_is_fetchable("/etc/passwd.org"));
    assert!(!note_is_fetchable("c.txt"));
    assert!(!note_is_fetchable(""));
    assert!(!note_is_fetchable("a.org/.."));
}

#[test]
fn dotted_names_without_parent_segments_pass() {
    assert!(note_is_fetchable("a..b.org"));
    assert!(note_is_fetchable("..a.md"));
    assert!(note_is_fetchable("a...md"));
}
