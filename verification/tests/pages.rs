use notes_server::base_html::BASE_HTML;
use notes_server::convert::{parse_note, resolve_note};
use notes_server::css::CSS;
use notes_server::pages::{escape_html, render_index_page, render_note};
use notes_server::pages::{INDEX_HEAD, INDEX_TAIL};

fn strings(v: &[&str]) -> Vec<String> {
    v.iter().map(|s| s.to_string()).collect()
}

#[test]
fn escape_leaves_plain_text_alone() {
    assert_eq!(escape_html("plain-name_1.org"), "plain-name_1.org");
}

#[test]
fn escape_replaces_every_metacharacter() {
    assert_eq!(escape_html("a&\"'<>.md"), "a&amp;&quot;&#39;&lt;&gt;.md");
}

#[test]
fn index_page_exact() {
    let files = strings(&["a.org"]);
    let expected = format!(
        "{}{}{}<li><a href=\"/notes/a.org\">a.org</a></li>{}",
        CSS, BASE_HTML, INDEX_HEAD, INDEX_TAIL
    );
    assert_eq!(render_index_page(&files), expected);
}

#[test]
fn index_page_lists_entries_in_order() {
    let files = strings(&["a.org", "sub/b.md"]);
    let page = render_index_page(&files);
    let first = page.find("<li><a href=\"/notes/a.org\">a.org</a></li>").unwrap();
    let second = page.find("<li><a href=\"/notes/sub/b.md\">sub/b.md</a></li>").unwrap();
    assert!(first < second);
    assert!(page.starts_with(CSS));
    assert!(page.ends_with("</ul></div></div></body></html>"));
}

#[test]
fn markdown_conversion_is_real() {
    assert_eq!(parse_note("x.md", "# Title\n"), "<h1>Title</h1>\n");
}

#[test]
fn org_conversion_is_real() {
    let fragment = parse_note("x.org", "* Heading\n");
    assert!(fragment.contains("<h1>Heading</h1>"));
    assert_ne!(fragment, "* Heading\n");
}

#[test]
fn unsupported_suffix_gives_empty_fragment() {
    assert_eq!(parse_note("x.txt", "anything"), "");
}

#[test]
fn dispatch_is_deterministic() {
    let a = parse_note("x.md", "# Title\n");
    let b = parse_note("x.md", "# Title\n");
    assert_eq!(a, b);
}

#[test]
fn resolve_note_needs_readable_text() {
    let (fragment, ok) = resolve_note("a.org", None);
    assert!(!ok);
    assert_eq!(fragment, "");
}

#[test]
fn resolve_note_rejects_traversal() {
    let (fragment, ok) = resolve_note("../a.org", Some("* x\n"));
    assert!(!ok);
    assert_eq!(fragment, "");
}

#[test]
fn resolve_note_accepts_supported_note() {
    let (fragment, ok) = resolve_note("sub/a.md", Some("# T\n"));
    assert!(ok);
    assert_eq!(fragment, "<h1>T</h1>\n");
}

#[test]
fn note_page_exact() {
    let (body, status) = render_note("n.md", Some("# Title\n"));
    let expected = format!(
        "{}{}<body><div class=\"note-titlebar\">n.md</div><div class=\"notes-panel\"><h1>Title</h1>\n</div></body></html>",
        CSS, BASE_HTML
    );
    assert_eq!(status, 200);
    assert_eq!(body, expected);
}

#[test]
fn note_title_is_escaped() {
    let (body, status) = render_note("<b>bold</b>.md", Some("text\n"));
    assert_eq!(status, 200);
    assert!(body.contains("<div class=\"note-titlebar\">&lt;b&gt;bold&lt;/b&gt;.md</div>"));
    assert!(!body.contains("<div class=\"note-titlebar\"><b>"));
}

#[test]
fn unreadable_note_renders_not_found() {
    let (body, status) = render_note("missing.md", None);
    assert_eq!(status, 404);
    assert!(body.contains("404 Not Found"));
    assert!(body.starts_with(CSS));
}

#[test]
fn unsupported_note_renders_not_found() {
    let (_, status) = render_note("c.txt", Some("text"));
    assert_eq!(status, 404);
}
