use std::collections::HashMap;

use git_uri::error::GitUriError;
use git_uri::resolve::{check_object_type, read_tree_object_hash, Kind, Query, Reply, Resolver};
use git_uri::uri::{decode_url, GitUri};

/// An object store held in memory, which counts the queries it answers.
struct Store {
    kinds: HashMap<String, String>,
    listings: HashMap<String, String>,
    commit_trees: HashMap<String, String>,
    parents: HashMap<String, String>,
    queries: usize,
}

impl Store {
    fn new() -> Store {
        Store {
            kinds: HashMap::new(),
            listings: HashMap::new(),
            commit_trees: HashMap::new(),
            parents: HashMap::new(),
            queries: 0,
        }
    }

    fn tree(&mut self, hash: &str, listing: &str) {
        self.kinds.insert(hash.to_string(), "tree".to_string());
        self.listings.insert(hash.to_string(), listing.to_string());
    }

    fn object(&mut self, hash: &str, kind: &str) {
        self.kinds.insert(hash.to_string(), kind.to_string());
    }

    fn answer(&mut self, table: &str, hash: &str) -> Reply {
        self.queries += 1;
        let found = match table {
            "kind" => self.kinds.get(hash),
            "listing" => self.listings.get(hash),
            "tree" => self.commit_trees.get(hash),
            _ => self.parents.get(hash),
        };
        match (table, found) {
            (_, None) => Reply::Failed { message: format!("unknown object {hash}") },
            ("kind", Some(k)) => Reply::Kind { kind: k.clone() },
            ("listing", Some(t)) => Reply::Listing { text: t.clone() },
            (_, Some(h)) => Reply::Hash { hash: h.clone() },
        }
    }

    fn run(&mut self, mut r: Resolver) -> Result<String, GitUriError> {
        loop {
            let reply = match r.query() {
                Query::Finished { hash } => return Ok(hash),
                Query::Kind { hash } => self.answer("kind", &hash),
                Query::Listing { hash } => self.answer("listing", &hash),
                Query::CommitTree { hash } => self.answer("tree", &hash),
                Query::CommitParent { hash } => self.answer("parent", &hash),
            };
            r = r.step(reply)?;
        }
    }
}

fn strings(v: &[&str]) -> Vec<String> {
    v.iter().map(|s| s.to_string()).collect()
}

#[test]
fn empty_walk_asks_nothing() {
    let mut store = Store::new();
    let r = read_tree_object_hash("h".to_string(), vec![]);
    assert_eq!(r.query(), Query::Finished { hash: "h".to_string() });
    assert_eq!(store.run(r), Ok("h".to_string()));
    assert_eq!(store.queries, 0);
}

#[test]
fn missing_segment_reports_prefix() {
    let mut store = Store::new();
    store.tree("h", "040000 tree h2\ta");
    store.tree("h2", "100644 blob h3\tc");
    let r = read_tree_object_hash("h".to_string(), strings(&["a", "b"]));
    assert_eq!(
        store.run(r),
        Err(GitUriError::PathNotFound { segment: "b".to_string(), prefix: "a".to_string() })
    );
}

#[test]
fn walk_reaches_blob() {
    let mut store = Store::new();
    store.tree("h", "040000 tree h2\ta\n100644 blob h9\tz");
    store.tree("h2", "100644 blob h3\tb");
    store.object("h3", "blob");
    let r = read_tree_object_hash("h".to_string(), strings(&["a", "b"]));
    assert_eq!(store.run(r), Ok("h3".to_string()));
    assert_eq!(store.queries, 4);
}

#[test]
fn walk_through_a_blob_is_a_mismatch() {
    let mut store = Store::new();
    store.tree("h", "100644 blob h3\ta");
    store.object("h3", "blob");
    let r = read_tree_object_hash("h".to_string(), strings(&["a", "b"]));
    assert_eq!(
        store.run(r),
        Err(GitUriError::TypeMismatch { expected: "tree".to_string(), actual: "blob".to_string() })
    );
}

#[test]
fn blob_that_is_a_tree() {
    let mut store = Store::new();
    store.tree("h", "");
    let r = Resolver::start(GitUri::Blob { hash: "h".to_string() });
    assert_eq!(
        store.run(r),
        Err(GitUriError::TypeMismatch { expected: "blob".to_string(), actual: "tree".to_string() })
    );
}

#[test]
fn blob_that_is_a_blob() {
    let mut store = Store::new();
    store.object("h", "blob");
    let r = Resolver::start(GitUri::Blob { hash: "h".to_string() });
    assert_eq!(store.run(r), Ok("h".to_string()));
    assert_eq!(store.queries, 1);
}

#[test]
fn object_is_never_checked() {
    let mut store = Store::new();
    let r = Resolver::start(decode_url("git:object:h").unwrap());
    assert_eq!(r.query(), Query::Finished { hash: "h".to_string() });
    assert_eq!(store.run(r), Ok("h".to_string()));
    assert_eq!(store.queries, 0);
}

#[test]
fn tree_without_path_is_checked() {
    let mut store = Store::new();
    store.object("h", "commit");
    let r = Resolver::start(decode_url("git:tree:h").unwrap());
    assert_eq!(
        store.run(r),
        Err(GitUriError::TypeMismatch { expected: "tree".to_string(), actual: "commit".to_string() })
    );
}

#[test]
fn commit_tree_path() {
    let mut store = Store::new();
    store.object("c", "commit");
    store.commit_trees.insert("c".to_string(), "t".to_string());
    store.tree("t", "100644 blob f1\tREADME");
    let r = Resolver::start(decode_url("git:commit:c:tree:README").unwrap());
    assert_eq!(store.run(r), Ok("f1".to_string()));
}

#[test]
fn commit_parent_without_path() {
    let mut store = Store::new();
    store.object("c", "commit");
    store.parents.insert("c".to_string(), "p".to_string());
    let r = Resolver::start(decode_url("git:commit:c:parent").unwrap());
    assert_eq!(store.run(r), Ok("p".to_string()));
}

#[test]
fn commit_that_is_a_blob() {
    let mut store = Store::new();
    store.object("c", "blob");
    let r = Resolver::start(decode_url("git:commit:c").unwrap());
    assert_eq!(
        store.run(r),
        Err(GitUriError::TypeMismatch { expected: "commit".to_string(), actual: "blob".to_string() })
    );
}

#[test]
fn store_failure_is_forwarded() {
    let mut store = Store::new();
    let r = Resolver::start(GitUri::Blob { hash: "nope".to_string() });
    assert_eq!(
        store.run(r),
        Err(GitUriError::StoreError { message: "unknown object nope".to_string() })
    );
}

#[test]
fn malformed_listing_is_a_store_error() {
    let mut store = Store::new();
    store.tree("h", "garbage");
    let r = read_tree_object_hash("h".to_string(), strings(&["a"]));
    assert_eq!(
        store.run(r),
        Err(GitUriError::StoreError { message: "malformed tree listing".to_string() })
    );
}

#[test]
fn unrelated_reply_is_ignored() {
    let r = Resolver::start(GitUri::Blob { hash: "h".to_string() });
    let r = r.step(Reply::Hash { hash: "x".to_string() }).unwrap();
    assert_eq!(r.query(), Query::Kind { hash: "h".to_string() });
}

#[test]
fn kind_check() {
    assert_eq!(check_object_type(Kind::Blob, "blob".to_string()), Ok(()));
    assert_eq!(check_object_type(Kind::Commit, "commit".to_string()), Ok(()));
    assert_eq!(
        check_object_type(Kind::Blob, "tree".to_string()),
        Err(GitUriError::TypeMismatch { expected: "blob".to_string(), actual: "tree".to_string() })
    );
}
