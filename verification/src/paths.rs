//! Validation of request-supplied relative paths and dialect dispatch.
//!
//! A request path is joined onto the note root before the file is read, so a
//! path is accepted only when it is relative and contains no
//! parent-directory segment: anything else could escape the root.

use vstd::prelude::*;
use crate::strutil::{ends_with, str_ends_with};

verus! {

/// The two supported markup dialects, plus a tag for everything else.
#[derive(Clone, Copy, PartialEq, Eq, Structural, Debug)]
pub enum Dialect {
    OutlineMarkup,
    LightweightMarkup,
    Unsupported,
}

/// A parent-directory segment (`..`) stands at position `i` of `s`:
/// two dots bounded by the string's ends or by separators.
pub open spec fn dotdot_at(s: Seq<char>, i: int) -> bool {
    &&& 0 <= i
    &&& i + 2 <= s.len()
    &&& s[i] == '.'
    &&& s[i + 1] == '.'
    &&& (i == 0 || s[i - 1] == '/')
    &&& (i + 2 == s.len() || s[i + 2] == '/')
}

/// True when some segment of `s` is `..`.
pub open spec fn has_dotdot_segment(s: Seq<char>) -> bool {
    exists|i: int| dotdot_at(s, i)
}

/// A relative path is safe to join onto the note root when it is nonempty,
/// not absolute, and free of parent-directory segments.
pub open spec fn is_safe_rel_path(s: Seq<char>) -> bool {
    &&& s.len() > 0
    &&& s[0] != '/'
    &&& !has_dotdot_segment(s)
}

/// The dialect a note path selects, by its suffix.
pub open spec fn dialect_of(s: Seq<char>) -> Dialect {
    if ends_with(s, ".org"@) {
        Dialect::OutlineMarkup
    } else if ends_with(s, ".md"@) {
        Dialect::LightweightMarkup
    } else {
        Dialect::Unsupported
    }
}

/// Suffix-based dialect dispatch.
pub fn note_dialect(name: &str) -> (d: Dialect)
    ensures
        d == dialect_of(name@),
{
    if str_ends_with(name, ".org") {
        Dialect::OutlineMarkup
    } else if str_ends_with(name, ".md") {
        Dialect::LightweightMarkup
    } else {
        Dialect::Unsupported
    }
}

/// Scan for a parent-directory segment.
pub fn contains_dotdot_segment(s: &str) -> (r: bool)
    ensures
        r == has_dotdot_segment(s@),
{
    let n = s.unicode_len();
    let mut i: usize = 0;
    while i < n
        invariant
            i <= n,
            n == s@.len(),
            forall|j: int| 0 <= j < i ==> !dotdot_at(s@, j),
        decreases n - i,
    {
        if n - i >= 2 && s.get_char(i) == '.' && s.get_char(i + 1) == '.'
            && (i == 0 || s.get_char(i - 1) == '/')
            && (n - i == 2 || s.get_char(i + 2) == '/') {
            proof {
                assert(dotdot_at(s@, i as int));
            }
            return true;
        }
        proof {
            assert(!dotdot_at(s@, i as int));
        }
        i += 1;
    }
    proof {
        assert(forall|j: int| dotdot_at(s@, j) ==> 0 <= j < s@.len());
    }
    false
}

/// Validation of a request-supplied relative path.
pub fn is_safe_note_path(s: &str) -> (r: bool)
    ensures
        r == is_safe_rel_path(s@),
{
    let n = s.unicode_len();
    if n == 0 {
        return false;
    }
    if s.get_char(0) == '/' {
        return false;
    }
    !contains_dotdot_segment(s)
}

} // verus!
