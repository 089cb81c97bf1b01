//! Note resolution: dialect dispatch to the two markup converters.
//!
//! The converters themselves are outside collaborators; each is reached
//! through one trusted wrapper whose result carries a name, so every caller's
//! contract is exact in terms of that name.

use vstd::prelude::*;
use crate::paths::{dialect_of, is_safe_rel_path, Dialect};

verus! {

/// The HTML fragment the Org converter renders for a given note text.
pub uninterp spec fn org_html_of(text: Seq<char>) -> Seq<char>;

/// The HTML fragment the Markdown converter renders for a given note text.
pub uninterp spec fn md_html_of(text: Seq<char>) -> Seq<char>;

/// Relies on orgize's `Org::parse` and `Org::write_html` (default parse
/// config and HTML handler): the rendered fragment depends on the note text
/// alone. A converter failure leaves whatever was written so far, so a
/// malformed note falls back to a partial or empty fragment rather than an
/// error.
#[verifier::external_body]
fn org_to_html(text: &str) -> (r: String)
    ensures
        r@ == org_html_of(text@),
{
    let mut out: Vec<u8> = Vec::new();
    let _ = orgize::Org::parse(text).write_html(&mut out);
    String::from_utf8_lossy(&out).into_owned()
}

/// Relies on pulldown-cmark's `Parser::new_ext` (every extension enabled, as
/// `Options::all` gives them) and `html::push_html`: the rendered fragment
/// depends on the note text alone.
#[verifier::external_body]
fn md_to_html(text: &str) -> (r: String)
    ensures
        r@ == md_html_of(text@),
{
    let parser = pulldown_cmark::Parser::new_ext(text, pulldown_cmark::Options::all());
    let mut out = String::new();
    pulldown_cmark::html::push_html(&mut out, parser);
    out
}

/// The fragment a note's name and text determine: the converter the name's
/// suffix selects, applied to the text; empty for an unsupported suffix.
pub open spec fn fragment_of(name: Seq<char>, text: Seq<char>) -> Seq<char> {
    match dialect_of(name) {
        Dialect::OutlineMarkup => org_html_of(text),
        Dialect::LightweightMarkup => md_html_of(text),
        Dialect::Unsupported => Seq::empty(),
    }
}

/// Dispatches a note to the converter its suffix selects. Deterministic:
/// the result is a function of the name and the text alone.
pub fn parse_note(note_name: &str, text: &str) -> (r: String)
    ensures
        r@ == fragment_of(note_name@, text@),
{
    match crate::paths::note_dialect(note_name) {
        Dialect::OutlineMarkup => org_to_html(text),
        Dialect::LightweightMarkup => md_to_html(text),
        Dialect::Unsupported => String::new(),
    }
}

/// The view of an optional note text.
pub open spec fn opt_view(text: Option<&str>) -> Option<Seq<char>> {
    match text {
        Some(t) => Some(t@),
        None => None,
    }
}

/// A note resolves exactly when its path is safe to join onto the root, its
/// suffix selects a supported dialect, and its text could be read.
pub open spec fn resolves(name: Seq<char>, text: Option<Seq<char>>) -> bool {
    &&& is_safe_rel_path(name)
    &&& dialect_of(name) != Dialect::Unsupported
    &&& text is Some
}

/// Resolves a note: validates the request-supplied path, dispatches by
/// suffix, and converts the text that was read for it (`None` when the file
/// could not be read). Returns the fragment and whether resolution
/// succeeded; failure always carries an empty fragment.
pub fn resolve_note(note_name: &str, text: Option<&str>) -> (r: (String, bool))
    ensures
        r.1 == resolves(note_name@, opt_view(text)),
        r.1 ==> r.0@ == fragment_of(note_name@, text.unwrap()@),
        !r.1 ==> r.0@ == Seq::<char>::empty(),
{
    if !crate::paths::is_safe_note_path(note_name) {
        return (String::new(), false);
    }
    match text {
        None => (String::new(), false),
        Some(t) => {
            match crate::paths::note_dialect(note_name) {
                Dialect::Unsupported => (String::new(), false),
                _ => (parse_note(note_name, t), true),
            }
        },
    }
}

/// Whether a routed note path may be read at all: safe to join onto the
/// root and of a supported dialect. Callers that read files consult this
/// first, so no read ever escapes the note root.
pub fn note_is_fetchable(note_name: &str) -> (r: bool)
    ensures
        r == (is_safe_rel_path(note_name@) && dialect_of(note_name@) != Dialect::Unsupported),
{
    if !crate::paths::is_safe_note_path(note_name) {
        return false;
    }
    match crate::paths::note_dialect(note_name) {
        Dialect::Unsupported => false,
        _ => true,
    }
}

/// Traversal safety: a path with a parent-directory segment, an absolute
/// path, and an empty path never resolve, whatever text came back.
pub proof fn lemma_traversal_rejected(name: Seq<char>, text: Option<Seq<char>>)
    ensures
        crate::paths::has_dotdot_segment(name) ==> !resolves(name, text),
        name.len() > 0 && name[0] == '/' ==> !resolves(name, text),
        name.len() == 0 ==> !resolves(name, text),
{
}

} // verus!
