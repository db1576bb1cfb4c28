use git_uri::listing::{find_entry, parse_tree_listing, TreeEntry};
use git_uri::text::{join_path, split_on};

fn strings(v: &[&str]) -> Vec<String> {
    v.iter().map(|s| s.to_string()).collect()
}

#[test]
fn split_keeps_empty_pieces() {
    assert_eq!(split_on("a::b:", ':'), strings(&["a", "", "b", ""]));
    assert_eq!(split_on("", ':'), strings(&[""]));
    assert_eq!(split_on("abc", ':'), strings(&["abc"]));
}

#[test]
fn join_prefix() {
    let parts = strings(&["a", "b", "c"]);
    assert_eq!(join_path(&parts, 0), "");
    assert_eq!(join_path(&parts, 1), "a");
    assert_eq!(join_path(&parts, 3), "a/b/c");
}

#[test]
fn listing_entries() {
    let text = "100644 blob 1111\tREADME\n040000 tree 2222\tsrc\n";
    let entries = parse_tree_listing(text).unwrap();
    assert_eq!(
        entries,
        vec![
            TreeEntry { name: "README".to_string(), hash: "1111".to_string() },
            TreeEntry { name: "src".to_string(), hash: "2222".to_string() },
        ]
    );
}

#[test]
fn listing_of_empty_tree() {
    assert_eq!(parse_tree_listing(""), Some(vec![]));
}

#[test]
fn malformed_listing() {
    assert_eq!(parse_tree_listing("100644 blob 1111 README"), None);
    assert_eq!(parse_tree_listing("1111\tREADME"), None);
}

#[test]
fn last_duplicate_wins() {
    let entries = parse_tree_listing("100644 blob 1\tx\n100644 blob 2\ty\n100644 blob 3\tx").unwrap();
    assert_eq!(find_entry(&entries, &"x".to_string()), Some("3".to_string()));
    assert_eq!(find_entry(&entries, &"y".to_string()), Some("2".to_string()));
    assert_eq!(find_entry(&entries, &"z".to_string()), None);
}
