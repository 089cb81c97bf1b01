//! The catalog: the ordered list of note paths eligible for serving.
//!
//! A directory listing (relative paths, traversal order) and the lines of an
//! optional exclusion list come in as plain strings; the catalog keeps
//! exactly the entries whose suffix selects a supported dialect and whose
//! path appears on no exclusion line, in the listing's order.

use vstd::prelude::*;
use crate::paths::{dialect_of, Dialect};
use crate::strutil::str_eq;

verus! {

/// The character sequences of a list of strings.
pub open spec fn views(v: Seq<String>) -> Seq<Seq<char>> {
    v.map_values(|s: String| s@)
}

/// Whether a listed file belongs in the catalog: supported suffix and not excluded.
pub open spec fn keeps(name: Seq<char>, excluded: Seq<Seq<char>>) -> bool {
    dialect_of(name) != Dialect::Unsupported && !excluded.contains(name)
}

/// The catalog a listing and an exclusion list determine: the listing
/// filtered down to the entries worth keeping, order preserved.
pub open spec fn catalog_of(names: Seq<Seq<char>>, excluded: Seq<Seq<char>>) -> Seq<Seq<char>> {
    names.filter(|n: Seq<char>| keeps(n, excluded))
}

/// Exact membership test against the exclusion lines.
fn is_excluded(excluded: &Vec<String>, name: &str) -> (r: bool)
    ensures
        r == views(excluded@).contains(name@),
{
    let mut i: usize = 0;
    while i < excluded.len()
        invariant
            i <= excluded@.len(),
            forall|j: int| 0 <= j < i ==> views(excluded@)[j] != name@,
        decreases excluded@.len() - i,
    {
        if str_eq(excluded[i].as_str(), name) {
            proof {
                assert(views(excluded@)[i as int] == name@);
            }
            return true;
        }
        i += 1;
    }
    false
}

/// Filters a directory listing down to the catalog: keeps each entry whose
/// suffix selects a supported dialect and which no exclusion line names,
/// in the listing's order. Duplicate or blank exclusion lines are harmless:
/// membership is exact string equality.
pub fn get_fnames(entries: &Vec<String>, excluded: &Vec<String>) -> (r: Vec<String>)
    ensures
        views(r@) == catalog_of(views(entries@), views(excluded@)),
{
    let ghost all = views(entries@);
    let ghost ex = views(excluded@);
    let mut r: Vec<String> = Vec::new();
    let mut i: usize = 0;
    proof {
        assert(views(r@) =~= catalog_of(all.subrange(0, 0), ex)) by {
            reveal(Seq::filter);
        }
    }
    while i < entries.len()
        invariant
            i <= entries@.len(),
            all == views(entries@),
            ex == views(excluded@),
            views(r@) == catalog_of(all.subrange(0, i as int), ex),
        decreases entries@.len() - i,
    {
        let name = &entries[i];
        let ghost prefix = all.subrange(0, i as int);
        let ghost prefix1 = all.subrange(0, i + 1);
        proof {
            assert(prefix1.drop_last() =~= prefix);
            assert(prefix1.last() == name@);
        }
        let keep = match crate::paths::note_dialect(name.as_str()) {
            Dialect::Unsupported => false,
            _ => !is_excluded(excluded, name.as_str()),
        };
        if keep {
            r.push(name.clone());
            proof {
                assert(views(r@) =~= catalog_of(prefix, ex).push(name@));
            }
        }
        proof {
            assert(catalog_of(prefix1, ex) == if keeps(name@, ex) {
                catalog_of(prefix, ex).push(name@)
            } else {
                catalog_of(prefix, ex)
            }) by {
                reveal(Seq::filter);
            }
        }
        i += 1;
    }
    proof {
        assert(all.subrange(0, entries@.len() as int) =~= all);
    }
    r
}

/// The catalog holds exactly the listed paths worth keeping: a path is in
/// the catalog if and only if it was listed, its suffix selects a supported
/// dialect, and no exclusion line names it.
pub proof fn lemma_catalog_membership(
    names: Seq<Seq<char>>,
    excluded: Seq<Seq<char>>,
    n: Seq<char>,
)
    ensures
        catalog_of(names, excluded).contains(n) <==> names.contains(n) && keeps(n, excluded),
{
    let pred = |m: Seq<char>| keeps(m, excluded);
    if catalog_of(names, excluded).contains(n) {
        names.lemma_filter_contains_rev(pred, n);
        let i = choose|i: int|
            0 <= i < catalog_of(names, excluded).len() && catalog_of(names, excluded)[i] == n;
        names.lemma_filter_pred(pred, i);
    }
    if names.contains(n) && keeps(n, excluded) {
        let i = choose|i: int| 0 <= i < names.len() && names[i] == n;
        names.lemma_filter_contains(pred, i);
    }
}

/// Every catalog entry's suffix selects a supported dialect, and none is
/// excluded: the catalog's invariant.
pub proof fn lemma_catalog_entries_eligible(
    names: Seq<Seq<char>>,
    excluded: Seq<Seq<char>>,
    i: int,
)
    requires
        0 <= i < catalog_of(names, excluded).len(),
    ensures
        dialect_of(catalog_of(names, excluded)[i]) != Dialect::Unsupported,
        !excluded.contains(catalog_of(names, excluded)[i]),
{
    names.lemma_filter_pred(|m: Seq<char>| keeps(m, excluded), i);
}

/// Excluding a path already on the exclusion list changes no catalog:
/// a duplicate line is as good as a single occurrence.
pub proof fn lemma_exclusion_idempotent(
    names: Seq<Seq<char>>,
    excluded: Seq<Seq<char>>,
    line: Seq<char>,
)
    requires
        excluded.contains(line),
    ensures
        catalog_of(names, excluded.push(line)) == catalog_of(names, excluded),
    decreases names.len(),
{
    assert forall|n: Seq<char>| keeps(n, excluded.push(line)) == keeps(n, excluded) by {
        if excluded.contains(n) {
            let k = choose|k: int| 0 <= k < excluded.len() && excluded[k] == n;
            assert(excluded.push(line)[k] == n);
        }
        if excluded.push(line).contains(n) {
            let k = choose|k: int|
                0 <= k < excluded.push(line).len() && excluded.push(line)[k] == n;
            if k < excluded.len() {
                assert(excluded[k] == n);
            } else {
                assert(n == line);
            }
        }
    }
    if names.len() == 0 {
        assert(catalog_of(names, excluded.push(line)) =~= catalog_of(names, excluded)) by {
            reveal(Seq::filter);
        }
    } else {
        lemma_exclusion_idempotent(names.drop_last(), excluded, line);
        assert(catalog_of(names, excluded.push(line)) =~= catalog_of(names, excluded)) by {
            reveal(Seq::filter);
        }
    }
}

} // verus!
