//! Resolution of a typed reference to the hash of one object.
//!
//! The resolver never talks to the object store itself. It names the next
//! query in [`Resolver::query`]; whoever runs it asks the store and hands the
//! answer back through [`Resolver::step`], until the query is
//! [`Query::Finished`].

use vstd::prelude::*;
use crate::error::{ErrorModel, GitUriError};
use crate::listing::{find_entry, listing_spec, lookup_spec, parse_tree_listing};
use crate::text::{join_path, join_seq, strings_view};
use crate::uri::{CommitPath, CommitPathModel, GitUri, GitUriModel};

verus! {

/// A kind of object that a reference can demand.
#[derive(Debug, Clone, Copy, PartialEq, Eq, Structural)]
pub enum Kind {
    Blob,
    Tree,
    Commit,
}

/// The object that a commit leads to.
#[derive(Debug, Clone, Copy, PartialEq, Eq, Structural)]
pub enum Link {
    Tree,
    Parent,
}

/// What the resolver waits for.
#[derive(Debug, Clone, Copy, PartialEq, Eq, Structural)]
pub enum Phase {
    /// The kind of the current object, which must be `expected`; then the
    /// commit's `link` is followed, or, without one, the path is walked on.
    Check { expected: Kind, link: Option<Link> },
    /// The listing of the current tree, to look the next segment up in.
    Listing,
    /// The hash that the current commit's link points to.
    Follow { link: Link },
    /// Nothing: the current hash is the result.
    Done,
}

/// The name under which the store reports a kind.
pub open spec fn kind_name(k: Kind) -> Seq<char> {
    match k {
        Kind::Blob => "blob"@,
        Kind::Tree => "tree"@,
        Kind::Commit => "commit"@,
    }
}

fn kind_text(k: Kind) -> (r: String)
    ensures
        r@ == kind_name(k),
{
    match k {
        Kind::Blob => "blob".to_owned(),
        Kind::Tree => "tree".to_owned(),
        Kind::Commit => "commit".to_owned(),
    }
}

/// Accepts the kind `actual` that the store reported for an object that
/// must be of kind `expected`, or names the mismatch.
pub fn check_object_type(expected: Kind, actual: String) -> (r: Result<(), GitUriError>)
    ensures
        r is Ok <==> actual@ == kind_name(expected),
        r matches Err(e) ==> e@ == ErrorModel::TypeMismatch(kind_name(expected), actual@),
{
    let want = kind_text(expected);
    if actual.eq(&want) {
        Ok(())
    } else {
        Err(GitUriError::TypeMismatch { expected: want, actual })
    }
}

/// The message of the error for a tree listing that cannot be read.
pub open spec fn malformed_listing() -> Seq<char> {
    "malformed tree listing"@
}

/// A query to the object store.
#[derive(Debug, PartialEq, Eq)]
pub enum Query {
    /// The kind of the object `hash`.
    Kind { hash: String },
    /// The entry listing of the tree `hash`.
    Listing { hash: String },
    /// The hash of the tree of the commit `hash`.
    CommitTree { hash: String },
    /// The hash of the parent of the commit `hash`.
    CommitParent { hash: String },
    /// No query: `hash` is what the reference resolves to.
    Finished { hash: String },
}

/// An answer of the object store.
#[derive(Debug, PartialEq, Eq)]
pub enum Reply {
    /// The kind of an object.
    Kind { kind: String },
    /// The entry listing of a tree.
    Listing { text: String },
    /// A commit's tree or parent.
    Hash { hash: String },
    /// The store failed to answer.
    Failed { message: String },
}

pub enum QueryModel {
    Kind(Seq<char>),
    Listing(Seq<char>),
    CommitTree(Seq<char>),
    CommitParent(Seq<char>),
    Finished(Seq<char>),
}

pub enum ReplyModel {
    Kind(Seq<char>),
    Listing(Seq<char>),
    Hash(Seq<char>),
    Failed(Seq<char>),
}

impl View for Query {
    type V = QueryModel;

    open spec fn view(&self) -> QueryModel {
        match self {
            Query::Kind { hash } => QueryModel::Kind(hash@),
            Query::Listing { hash } => QueryModel::Listing(hash@),
            Query::CommitTree { hash } => QueryModel::CommitTree(hash@),
            Query::CommitParent { hash } => QueryModel::CommitParent(hash@),
            Query::Finished { hash } => QueryModel::Finished(hash@),
        }
    }
}

impl View for Reply {
    type V = ReplyModel;

    open spec fn view(&self) -> ReplyModel {
        match self {
            Reply::Kind { kind } => ReplyModel::Kind(kind@),
            Reply::Listing { text } => ReplyModel::Listing(text@),
            Reply::Hash { hash } => ReplyModel::Hash(hash@),
            Reply::Failed { message } => ReplyModel::Failed(message@),
        }
    }
}

/// The state of a resolution: the current hash, the path, how many of its
/// segments are consumed, and what comes next.
pub struct ResolverModel {
    pub hash: Seq<char>,
    pub path: Seq<Seq<char>>,
    pub pos: nat,
    pub phase: Phase,
}

/// The state that walks `path` from its segment `pos` on, starting at `hash`.
pub open spec fn walk_from(hash: Seq<char>, path: Seq<Seq<char>>, pos: nat) -> ResolverModel {
    ResolverModel {
        hash,
        path,
        pos,
        phase: if pos < path.len() {
            Phase::Check { expected: Kind::Tree, link: None }
        } else {
            Phase::Done
        },
    }
}

/// The first state of the resolution of a reference.
pub open spec fn start_spec(u: GitUriModel) -> ResolverModel {
    let check = |hash: Seq<char>, path: Seq<Seq<char>>, expected: Kind, link: Option<Link>|
        ResolverModel { hash, path, pos: 0, phase: Phase::Check { expected, link } };
    match u {
        GitUriModel::Object(h) => ResolverModel {
            hash: h,
            path: Seq::empty(),
            pos: 0,
            phase: Phase::Done,
        },
        GitUriModel::Blob(h) => check(h, Seq::empty(), Kind::Blob, None),
        GitUriModel::Tree(h, p) => check(h, p, Kind::Tree, None),
        GitUriModel::Commit(h, None) => check(h, Seq::empty(), Kind::Commit, None),
        GitUriModel::Commit(h, Some(CommitPathModel::Tree(p))) => check(
            h,
            p,
            Kind::Commit,
            Some(Link::Tree),
        ),
        GitUriModel::Commit(h, Some(CommitPathModel::Parent(p))) => check(
            h,
            p,
            Kind::Commit,
            Some(Link::Parent),
        ),
    }
}

/// The query that a state asks.
pub open spec fn query_spec(m: ResolverModel) -> QueryModel {
    match m.phase {
        Phase::Check { .. } => QueryModel::Kind(m.hash),
        Phase::Listing => QueryModel::Listing(m.hash),
        Phase::Follow { link: Link::Tree } => QueryModel::CommitTree(m.hash),
        Phase::Follow { link: Link::Parent } => QueryModel::CommitParent(m.hash),
        Phase::Done => QueryModel::Finished(m.hash),
    }
}

/// The state after a reply, or the error that the reply brings. A reply
/// that answers another query than the one asked leaves the state as it is.
pub open spec fn step_spec(m: ResolverModel, reply: ReplyModel) -> Result<ResolverModel, ErrorModel> {
    match (m.phase, reply) {
        (Phase::Done, _) => Ok(m),
        (_, ReplyModel::Failed(msg)) => Err(ErrorModel::StoreError(msg)),
        (Phase::Check { expected, link }, ReplyModel::Kind(k)) => if k != kind_name(expected) {
            Err(ErrorModel::TypeMismatch(kind_name(expected), k))
        } else {
            match link {
                Some(l) => Ok(ResolverModel { phase: Phase::Follow { link: l }, ..m }),
                None => Ok(
                    ResolverModel {
                        phase: if m.pos < m.path.len() {
                            Phase::Listing
                        } else {
                            Phase::Done
                        },
                        ..m
                    },
                ),
            }
        },
        (Phase::Listing, ReplyModel::Listing(text)) => match listing_spec(text) {
            None => Err(ErrorModel::StoreError(malformed_listing())),
            Some(entries) => match lookup_spec(entries, m.path[m.pos as int]) {
                None => Err(
                    ErrorModel::PathNotFound(
                        m.path[m.pos as int],
                        join_seq(m.path.take(m.pos as int), '/'),
                    ),
                ),
                Some(next) => Ok(walk_from(next, m.path, m.pos + 1)),
            },
        },
        (Phase::Follow { .. }, ReplyModel::Hash(h)) => Ok(walk_from(h, m.path, 0)),
        _ => Ok(m),
    }
}

/// The value of a step's result.
pub open spec fn stepped_view(r: Result<Resolver, GitUriError>) -> Result<ResolverModel, ErrorModel> {
    match r {
        Ok(s) => Ok(s@),
        Err(e) => Err(e@),
    }
}

/// A resolution in progress.
#[derive(Debug)]
pub struct Resolver {
    hash: String,
    path: Vec<String>,
    pos: usize,
    phase: Phase,
}

impl View for Resolver {
    type V = ResolverModel;

    closed spec fn view(&self) -> ResolverModel {
        ResolverModel {
            hash: self.hash@,
            path: strings_view(self.path@),
            pos: self.pos as nat,
            phase: self.phase,
        }
    }
}

impl Resolver {
    #[verifier::type_invariant]
    spec fn well_formed(self) -> bool {
        &&& self.pos <= self.path@.len()
        &&& self.phase == Phase::Listing ==> self.pos < self.path@.len()
    }

    fn walk(hash: String, path: Vec<String>, pos: usize) -> (r: Resolver)
        requires
            pos <= path@.len(),
        ensures
            r@ == walk_from(hash@, strings_view(path@), pos as nat),
    {
        let phase = if pos < path.len() {
            Phase::Check { expected: Kind::Tree, link: None }
        } else {
            Phase::Done
        };
        Resolver { hash, path, pos, phase }
    }

    fn no_path() -> (r: Vec<String>)
        ensures
            strings_view(r@) == Seq::<Seq<char>>::empty(),
    {
        let r: Vec<String> = Vec::new();
        assert(strings_view(r@) =~= Seq::<Seq<char>>::empty());
        r
    }

    /// Starts resolving the reference `uri`.
    pub fn start(uri: GitUri) -> (r: Resolver)
        ensures
            r@ == start_spec(uri@),
    {
        match uri {
            GitUri::Object { hash } => Resolver { hash, path: Resolver::no_path(), pos: 0, phase: Phase::Done },
            GitUri::Blob { hash } => Resolver {
                hash,
                path: Resolver::no_path(),
                pos: 0,
                phase: Phase::Check { expected: Kind::Blob, link: None },
            },
            GitUri::Tree { hash, path } => Resolver {
                hash,
                path,
                pos: 0,
                phase: Phase::Check { expected: Kind::Tree, link: None },
            },
            GitUri::Commit { hash, path: None } => Resolver {
                hash,
                path: Resolver::no_path(),
                pos: 0,
                phase: Phase::Check { expected: Kind::Commit, link: None },
            },
            GitUri::Commit { hash, path: Some(CommitPath::Tree { path }) } => Resolver {
                hash,
                path,
                pos: 0,
                phase: Phase::Check { expected: Kind::Commit, link: Some(Link::Tree) },
            },
            GitUri::Commit { hash, path: Some(CommitPath::Parent { path }) } => Resolver {
                hash,
                path,
                pos: 0,
                phase: Phase::Check { expected: Kind::Commit, link: Some(Link::Parent) },
            },
        }
    }

    /// The query that the resolution waits on.
    pub fn query(&self) -> (r: Query)
        ensures
            r@ == query_spec(self@),
    {
        let hash = self.hash.clone();
        match self.phase {
            Phase::Check { .. } => Query::Kind { hash },
            Phase::Listing => Query::Listing { hash },
            Phase::Follow { link: Link::Tree } => Query::CommitTree { hash },
            Phase::Follow { link: Link::Parent } => Query::CommitParent { hash },
            Phase::Done => Query::Finished { hash },
        }
    }

    /// Takes the store's answer to the pending query.
    pub fn step(self, reply: Reply) -> (r: Result<Resolver, GitUriError>)
        ensures
            stepped_view(r) == step_spec(self@, reply@),
    {
        proof {
            use_type_invariant(&self);
        }
        let Resolver { hash, path, pos, phase } = self;
        match (phase, reply) {
            (Phase::Done, _) => Ok(Resolver { hash, path, pos, phase }),
            (_, Reply::Failed { message }) => Err(GitUriError::StoreError { message }),
            (Phase::Check { expected, link }, Reply::Kind { kind }) => {
                if let Err(e) = check_object_type(expected, kind) {
                    return Err(e);
                }
                let phase = match link {
                    Some(l) => Phase::Follow { link: l },
                    None => if pos < path.len() {
                        Phase::Listing
                    } else {
                        Phase::Done
                    },
                };
                Ok(Resolver { hash, path, pos, phase })
            },
            (Phase::Listing, Reply::Listing { text }) => {
                let n = path.len();
                assert(pos < n);
                let entries = match parse_tree_listing(text.as_str()) {
                    Some(v) => v,
                    None => {
                        let message = "malformed tree listing".to_owned();
                        return Err(GitUriError::StoreError { message });
                    },
                };
                match find_entry(&entries, &path[pos]) {
                    Some(next) => Ok(Resolver::walk(next, path, pos + 1)),
                    None => {
                        let prefix = join_path(&path, pos);
                        let segment = path[pos].clone();
                        Err(GitUriError::PathNotFound { segment, prefix })
                    },
                }
            },
            (Phase::Follow { .. }, Reply::Hash { hash: next }) => Ok(Resolver::walk(next, path, 0)),
            (phase, _) => Ok(Resolver { hash, path, pos, phase }),
        }
    }
}

/// Starts walking `path` from the tree `hash`: each segment names an entry of
/// the tree reached by the segments before it.
pub fn read_tree_object_hash(hash: String, path: Vec<String>) -> (r: Resolver)
    ensures
        r@ == walk_from(hash@, strings_view(path@), 0),
{
    Resolver::walk(hash, path, 0)
}

} // verus!
