use notes_server::catalog::get_fnames;

fn strings(v: &[&str]) -> Vec<String> {
    v.iter().map(|s| s.to_string()).collect()
}

#[test]
fn test_get_fnames() {
    let entries = strings(&["file1.org", "file2.md", "file3.txt", "file4.org"]);
    let excluded = strings(&["file1.org"]);

    let res = get_fnames(&entries, &excluded);
    let res_fnames: Vec<String> = res.iter().map(|p| p.to_string()).collect();

    assert_eq!(res_fnames.len(), 2);
    assert!(res_fnames.contains(&"file2.md".to_string()));
    assert!(res_fnames.contains(&"file4.org".to_string()));
}

#[test]
fn supported_dialects_only() {
    let entries = strings(&["a.org", "b.md", "c.txt"]);
    let excluded = strings(&[]);

    let res = get_fnames(&entries, &excluded);

    assert_eq!(res, strings(&["a.org", "b.md"]));
}

#[test]
fn exclusion_with_blank_line() {
    let entries = strings(&["a.org", "b.md", "c.txt"]);
    let excluded = strings(&["a.org", ""]);

    let res = get_fnames(&entries, &excluded);

    assert_eq!(res, strings(&["b.md"]));
}

#[test]
fn duplicate_exclusion_line_changes_nothing() {
    let entries = strings(&["a.org", "b.md", "sub/c.org"]);
    let once = get_fnames(&entries, &strings(&["a.org"]));
    let twice = get_fnames(&entries, &strings(&["a.org", "a.org"]));

    assert_eq!(once, twice);
    assert_eq!(once, strings(&["b.md", "sub/c.org"]));
}

#[test]
fn exclusion_is_exact_not_prefix() {
    let entries = strings(&["sub/a.org", "a.org"]);
    let excluded = strings(&["a.org"]);

    let res = get_fnames(&entries, &excluded);

    assert_eq!(res, strings(&["sub/a.org"]));
}

#[test]
fn order_of_listing_is_kept() {
    let entries = strings(&["z.md", "a.org", "m.md"]);
    let excluded = strings(&[]);

    let res = get_fnames(&entries, &excluded);

    assert_eq!(res, strings(&["z.md", "a.org", "m.md"]));
}

#[test]
fn empty_listing_gives_empty_catalog() {
    let res = get_fnames(&strings(&[]), &strings(&["a.org"]));
    assert!(res.is_empty());
}
