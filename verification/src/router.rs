//! Routing: maps a request path to the index page, a note page, or the
//! generic not-found response, and assembles the response for each.

use vstd::prelude::*;
use crate::catalog::views;
use crate::convert::{fragment_of, opt_view, resolves};
use crate::pages::{
    index_page, not_found_page, note_page, render_index_page, render_note,
};
use crate::strutil::{starts_with, str_eq, str_starts_with, strip_front};

verus! {

/// Where a request path leads.
pub enum Route {
    Index,
    Note(String),
    Other,
}

/// The request path asks for the index.
pub open spec fn is_index_url(url: Seq<char>) -> bool {
    url == "/"@
}

/// The request path asks for a note.
pub open spec fn is_note_url(url: Seq<char>) -> bool {
    starts_with(url, crate::NOTES_URL_PREFIX@)
}

/// The candidate note path: the request path with the notes prefix stripped.
pub open spec fn note_suffix(url: Seq<char>) -> Seq<char> {
    url.subrange(crate::NOTES_URL_PREFIX@.len() as int, url.len() as int)
}

/// Routes a request path: the index at `/`, a note under the notes prefix,
/// and nothing anywhere else.
pub fn route(url: &str) -> (r: Route)
    ensures
        match r {
            Route::Index => is_index_url(url@),
            Route::Note(name) => is_note_url(url@) && name@ == note_suffix(url@),
            Route::Other => !is_index_url(url@) && !is_note_url(url@),
        },
{
    if str_eq(url, "/") {
        Route::Index
    } else if str_starts_with(url, crate::NOTES_URL_PREFIX) {
        let plen = crate::NOTES_URL_PREFIX.unicode_len();
        Route::Note(strip_front(url, plen))
    } else {
        Route::Other
    }
}

/// Routing is complete and unambiguous: every request path falls under
/// exactly one of the index, a note that resolves, a note that does not,
/// and the unmatched rest.
pub proof fn lemma_routing_complete(url: Seq<char>, text: Option<Seq<char>>)
    ensures
        ({
            let index_case = is_index_url(url);
            let note_ok = is_note_url(url) && resolves(note_suffix(url), text);
            let note_missing = is_note_url(url) && !resolves(note_suffix(url), text);
            let unmatched = !is_index_url(url) && !is_note_url(url);
            &&& index_case || note_ok || note_missing || unmatched
            &&& !(index_case && note_ok)
            &&& !(index_case && note_missing)
            &&& !(index_case && unmatched)
            &&& !(note_ok && note_missing)
            &&& !(note_ok && unmatched)
            &&& !(note_missing && unmatched)
        }),
{
    reveal_strlit("/");
    reveal_strlit("/notes/");
    if is_index_url(url) {
        assert(url.len() == 1);
        assert("/notes/"@.len() == 7);
    }
}

/// Assembles the response for one request path: the index page at `/`, the
/// routed note's page or the not-found page under the notes prefix, and the
/// generic plain not-found body anywhere else. `text` is what reading the
/// routed note yielded, `None` when no note was routed or the read failed.
pub fn handle_request(url: &str, files: &Vec<String>, text: Option<&str>) -> (r: (String, u16))
    ensures
        is_index_url(url@) ==> r.0@ == index_page(views(files@)) && r.1 == 200,
        is_note_url(url@) ==> {
            &&& resolves(note_suffix(url@), opt_view(text)) ==> r.0@ == note_page(
                note_suffix(url@),
                fragment_of(note_suffix(url@), text.unwrap()@),
            ) && r.1 == 200
            &&& !resolves(note_suffix(url@), opt_view(text)) ==> r.0@ == not_found_page()
                && r.1 == 404
        },
        !is_index_url(url@) && !is_note_url(url@) ==> r.0@ == "404 Not Found"@ && r.1 == 404,
{
    proof {
        lemma_routing_complete(url@, opt_view(text));
    }
    match route(url) {
        Route::Index => (render_index_page(files), 200),
        Route::Note(name) => render_note(name.as_str(), text),
        Route::Other => ("404 Not Found".to_owned(), 404),
    }
}

} // verus!
