//! Page assembly: every page is the shared chrome (stylesheet, then header)
//! followed by a page-specific body, stated character for character.
//!
//! Note names are request-supplied, so the title bar escapes them; the index
//! links use each catalog entry verbatim, as the catalog builder produced it.

use vstd::prelude::*;
use crate::base_html::BASE_HTML;
use crate::catalog::views;
use crate::convert::{fragment_of, opt_view, resolve_note, resolves};
use crate::css::CSS;

verus! {

pub const INDEX_HEAD: &'static str =
    "<body><div class=\"index-panel\"><div class=\"search-bar\"><input type=\"text\" placeholder=\"Search...\" /><button>Search</button></div><div class=\"index-list\"><h1>Index</h1><ul>";

pub const INDEX_TAIL: &'static str = "</ul></div></div></body></html>";

/// What one character becomes in escaped HTML text.
pub open spec fn escape_char(c: char) -> Seq<char> {
    if c == '&' {
        "&amp;"@
    } else if c == '<' {
        "&lt;"@
    } else if c == '>' {
        "&gt;"@
    } else if c == '"' {
        "&quot;"@
    } else if c == '\'' {
        "&#39;"@
    } else {
        seq![c]
    }
}

/// HTML-escaping of a whole string, character by character.
pub open spec fn html_escape(s: Seq<char>) -> Seq<char>
    decreases s.len(),
{
    if s.len() == 0 {
        Seq::empty()
    } else {
        html_escape(s.drop_last()) + escape_char(s.last())
    }
}

/// Escapes the HTML metacharacters of `s`.
pub fn escape_html(s: &str) -> (r: String)
    ensures
        r@ == html_escape(s@),
{
    let n = s.unicode_len();
    let mut out = String::new();
    let mut i: usize = 0;
    proof {
        assert(out@ =~= html_escape(s@.subrange(0, 0)));
    }
    while i < n
        invariant
            i <= n,
            n == s@.len(),
            out@ == html_escape(s@.subrange(0, i as int)),
        decreases n - i,
    {
        let ghost prefix = s@.subrange(0, i as int);
        let ghost prefix1 = s@.subrange(0, i + 1);
        proof {
            assert(prefix1.drop_last() =~= prefix);
            assert(prefix1.last() == s@[i as int]);
        }
        let c = s.get_char(i);
        if c == '&' {
            out.append("&amp;");
        } else if c == '<' {
            out.append("&lt;");
        } else if c == '>' {
            out.append("&gt;");
        } else if c == '"' {
            out.append("&quot;");
        } else if c == '\'' {
            out.append("&#39;");
        } else {
            let piece = s.substring_char(i, i + 1);
            out.append(piece);
            proof {
                assert(piece@ =~= seq![s@[i as int]]);
            }
        }
        i += 1;
    }
    proof {
        assert(s@.subrange(0, n as int) =~= s@);
    }
    out
}

/// One index entry: a list item linking to the note, text equal to its path.
pub open spec fn index_item(name: Seq<char>) -> Seq<char> {
    "<li><a href=\""@ + crate::NOTES_URL_PREFIX@ + name + "\">"@ + name + "</a></li>"@
}

/// The concatenated index entries, in catalog order.
pub open spec fn index_items(names: Seq<Seq<char>>) -> Seq<char>
    decreases names.len(),
{
    if names.len() == 0 {
        Seq::empty()
    } else {
        index_items(names.drop_last()) + index_item(names.last())
    }
}

/// The whole index page: chrome, search box, then one link per entry.
pub open spec fn index_page(names: Seq<Seq<char>>) -> Seq<char> {
    CSS@ + BASE_HTML@ + INDEX_HEAD@ + index_items(names) + INDEX_TAIL@
}

/// Renders the index page for a catalog.
pub fn render_index_page(files: &Vec<String>) -> (r: String)
    ensures
        r@ == index_page(views(files@)),
{
    let ghost names = views(files@);
    let mut html = CSS.to_owned();
    html.append(BASE_HTML);
    html.append(INDEX_HEAD);
    let ghost head = html@;
    let mut i: usize = 0;
    proof {
        assert(html@ =~= head + index_items(names.subrange(0, 0)));
    }
    while i < files.len()
        invariant
            i <= files@.len(),
            names == views(files@),
            head == CSS@ + BASE_HTML@ + INDEX_HEAD@,
            html@ == head + index_items(names.subrange(0, i as int)),
        decreases files@.len() - i,
    {
        let ghost prefix = names.subrange(0, i as int);
        let ghost prefix1 = names.subrange(0, i + 1);
        proof {
            assert(prefix1.drop_last() =~= prefix);
            assert(prefix1.last() == names[i as int]);
        }
        html.append("<li><a href=\"");
        html.append(crate::NOTES_URL_PREFIX);
        html.append(files[i].as_str());
        html.append("\">");
        html.append(files[i].as_str());
        html.append("</a></li>");
        proof {
            assert(html@ =~= head + index_items(prefix1));
        }
        i += 1;
    }
    html.append(INDEX_TAIL);
    proof {
        assert(names.subrange(0, files@.len() as int) =~= names);
        assert(html@ =~= index_page(names));
    }
    html
}

/// The note page: chrome, a title bar with the escaped note name, then the
/// converted fragment in the notes panel.
pub open spec fn note_page(name: Seq<char>, fragment: Seq<char>) -> Seq<char> {
    CSS@ + BASE_HTML@ + "<body>"@ + "<div class=\"note-titlebar\">"@ + html_escape(name)
        + "</div>"@ + "<div class=\"notes-panel\">"@ + fragment + "</div>"@ + "</body></html>"@
}

/// The page served when a note does not resolve.
pub open spec fn not_found_page() -> Seq<char> {
    CSS@ + BASE_HTML@
        + "<body><div class=\"notes-panel\"><h1>404 Not Found</h1></div></body></html>"@
}

/// Renders the not-found page.
pub fn render_not_found_page() -> (r: String)
    ensures
        r@ == not_found_page(),
{
    let mut html = CSS.to_owned();
    html.append(BASE_HTML);
    html.append("<body><div class=\"notes-panel\"><h1>404 Not Found</h1></div></body></html>");
    html
}

/// Renders the page for one requested note: the note page with status 200
/// when the note resolves, the not-found page with status 404 when it does
/// not (unsafe path, unsupported suffix, or unreadable file).
pub fn render_note(note_name: &str, text: Option<&str>) -> (r: (String, u16))
    ensures
        resolves(note_name@, opt_view(text)) ==> r.0@ == note_page(
            note_name@,
            fragment_of(note_name@, text.unwrap()@),
        ) && r.1 == 200,
        !resolves(note_name@, opt_view(text)) ==> r.0@ == not_found_page() && r.1 == 404,
{
    let (fragment, ok) = resolve_note(note_name, text);
    if !ok {
        return (render_not_found_page(), 404);
    }
    let mut html = CSS.to_owned();
    html.append(BASE_HTML);
    html.append("<body>");
    html.append("<div class=\"note-titlebar\">");
    let escaped = escape_html(note_name);
    html.append(escaped.as_str());
    html.append("</div>");
    html.append("<div class=\"notes-panel\">");
    html.append(fragment.as_str());
    html.append("</div>");
    html.append("</body></html>");
    (html, 200)
}

} // verus!
