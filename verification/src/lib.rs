//! A small library for serving a directory of plain-text notes as HTML.
//!
//! Notes come in two dialects, selected by file extension: Org outlines
//! (`.org`) and Markdown (`.md`). The library builds a catalog of eligible
//! note paths, validates and routes request paths, dispatches each note to
//! the matching converter, and assembles complete HTML pages. File and
//! network I/O live outside the library; every function here works on plain
//! values.

pub mod base_html;
pub mod catalog;
pub mod convert;
pub mod css;
pub mod pages;
pub mod paths;
pub mod router;
pub mod strutil;

use vstd::prelude::*;

verus! {

/// The URL prefix under which notes are served.
pub const NOTES_URL_PREFIX: &'static str = "/notes/";

} // verus!
