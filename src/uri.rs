//! Typed references and the decoder of `git:` URIs.

use vstd::prelude::*;
use crate::error::{ErrorModel, GitUriError};
use crate::text::{split_on, split_seq, strings_view};

verus! {

/// The path that follows a commit reference.
#[derive(Debug, PartialEq, Eq)]
pub enum CommitPath {
    /// Walk `path` from the commit's tree.
    Tree { path: Vec<String> },
    /// Walk `path` from the commit's parent, taken as the root of the walk.
    Parent { path: Vec<String> },
}

/// A reference to an object of the store, decoded from a `git:` URI.
#[derive(Debug, PartialEq, Eq)]
pub enum GitUri {
    /// Any object, of whatever kind the store reports.
    Object { hash: String },
    /// An object that must be a blob.
    Blob { hash: String },
    /// A commit, optionally followed by a path.
    Commit { hash: String, path: Option<CommitPath> },
    /// A tree, followed by a path to walk through it (possibly empty).
    Tree { hash: String, path: Vec<String> },
}

/// The mathematical value of a [`CommitPath`].
pub enum CommitPathModel {
    Tree(Seq<Seq<char>>),
    Parent(Seq<Seq<char>>),
}

/// The mathematical value of a [`GitUri`].
pub enum GitUriModel {
    Object(Seq<char>),
    Blob(Seq<char>),
    Commit(Seq<char>, Option<CommitPathModel>),
    Tree(Seq<char>, Seq<Seq<char>>),
}

impl View for CommitPath {
    type V = CommitPathModel;

    open spec fn view(&self) -> CommitPathModel {
        match self {
            CommitPath::Tree { path } => CommitPathModel::Tree(strings_view(path@)),
            CommitPath::Parent { path } => CommitPathModel::Parent(strings_view(path@)),
        }
    }
}

impl View for GitUri {
    type V = GitUriModel;

    open spec fn view(&self) -> GitUriModel {
        match self {
            GitUri::Object { hash } => GitUriModel::Object(hash@),
            GitUri::Blob { hash } => GitUriModel::Blob(hash@),
            GitUri::Commit { hash, path } => GitUriModel::Commit(
                hash@,
                match path {
                    Some(p) => Some(p@),
                    None => None,
                },
            ),
            GitUri::Tree { hash, path } => GitUriModel::Tree(hash@, strings_view(path@)),
        }
    }
}

/// The value of a decoding result.
pub open spec fn decoded_view(r: Result<GitUri, GitUriError>) -> Result<GitUriModel, ErrorModel> {
    match r {
        Ok(u) => Ok(u@),
        Err(e) => Err(e@),
    }
}

/// The `/`-separated segments of each of `parts`, in order.
pub open spec fn segments_of(parts: Seq<Seq<char>>) -> Seq<Seq<char>>
    decreases parts.len(),
{
    if parts.len() == 0 {
        Seq::empty()
    } else {
        segments_of(parts.drop_last()) + split_seq(parts.last(), '/')
    }
}

/// The reference that a URI with the given scheme and path denotes.
pub open spec fn decode_spec(scheme: Seq<char>, path: Seq<char>) -> Result<GitUriModel, ErrorModel> {
    let parts = split_seq(path, ':');
    let kind = parts[0];
    if scheme != "git"@ {
        Err(ErrorModel::UnsupportedScheme(scheme))
    } else if kind != "object"@ && kind != "blob"@ && kind != "tree"@ && kind != "commit"@ {
        Err(ErrorModel::UnknownKind(kind))
    } else if parts.len() < 2 {
        Err(ErrorModel::MissingComponent)
    } else if kind == "commit"@ {
        if parts[1].len() == 0 {
            Err(ErrorModel::MissingComponent)
        } else if parts.len() == 2 {
            Ok(GitUriModel::Commit(parts[1], None))
        } else if parts[2] == "tree"@ {
            Ok(GitUriModel::Commit(parts[1], Some(CommitPathModel::Tree(segments_of(parts.skip(3))))))
        } else if parts[2] == "parent"@ {
            Ok(GitUriModel::Commit(parts[1], Some(CommitPathModel::Parent(segments_of(parts.skip(3))))))
        } else {
            Err(ErrorModel::InvalidUri)
        }
    } else if kind == "tree"@ {
        let segs = split_seq(parts[1], '/');
        if segs[0].len() == 0 {
            Err(ErrorModel::MissingComponent)
        } else if parts.len() > 2 {
            Err(ErrorModel::InvalidUri)
        } else {
            Ok(GitUriModel::Tree(segs[0], segs.skip(1)))
        }
    } else if parts[1].len() == 0 {
        Err(ErrorModel::MissingComponent)
    } else if parts.len() > 2 {
        Err(ErrorModel::InvalidUri)
    } else if kind == "object"@ {
        Ok(GitUriModel::Object(parts[1]))
    } else {
        Ok(GitUriModel::Blob(parts[1]))
    }
}

/// Whether the url crate parses `s` as an absolute URL.
pub uninterp spec fn url_accepts(s: Seq<char>) -> bool;

/// The lower-cased scheme of the URL that the url crate parses from `s`.
pub uninterp spec fn url_scheme(s: Seq<char>) -> Seq<char>;

/// The path of the URL that the url crate parses from `s`.
pub uninterp spec fn url_path(s: Seq<char>) -> Seq<char>;

#[verifier::external_type_specification]
#[verifier::external_body]
pub struct ExParseError(url::ParseError);

/// Relies on `url::Url::parse` to parse `s` as an absolute URL, and on
/// `Url::scheme` and `Url::path` for the scheme and the path of the result.
#[verifier::external_body]
fn parse_url(s: &str) -> (r: Result<(String, String), url::ParseError>)
    ensures
        r is Ok <==> url_accepts(s@),
        r matches Ok(p) ==> p.0@ == url_scheme(s@) && p.1@ == url_path(s@),
{
    match url::Url::parse(s) {
        Ok(u) => Ok((u.scheme().to_owned(), u.path().to_owned())),
        Err(e) => Err(e),
    }
}

/// The reference that the URI `s` denotes.
pub open spec fn decode_url_spec(s: Seq<char>) -> Result<GitUriModel, ErrorModel> {
    if url_accepts(s) {
        decode_spec(url_scheme(s), url_path(s))
    } else {
        Err(ErrorModel::InvalidUri)
    }
}

fn same_text(a: &String, b: &str) -> (r: bool)
    ensures
        r == (a@ == b@),
{
    let owned = b.to_owned();
    a.eq(&owned)
}

/// Copies of the elements of `v` from index `from` on.
fn suffix_from(v: &Vec<String>, from: usize) -> (r: Vec<String>)
    requires
        from <= v@.len(),
    ensures
        strings_view(r@) == strings_view(v@).skip(from as int),
{
    let mut r: Vec<String> = Vec::new();
    let mut i: usize = from;
    while i < v.len()
        invariant
            from <= i <= v@.len(),
            strings_view(r@) == strings_view(v@).subrange(from as int, i as int),
        decreases v@.len() - i,
    {
        let ghost before = strings_view(r@);
        let item = v[i].clone();
        r.push(item);
        assert(strings_view(r@) =~= before.push(v@[i as int]@));
        assert(strings_view(r@) =~= strings_view(v@).subrange(from as int, i + 1));
        i = i + 1;
    }
    assert(strings_view(v@).subrange(from as int, v@.len() as int) =~= strings_view(v@).skip(
        from as int,
    ));
    r
}

/// The `/`-separated segments of the parts from index `from` on.
fn segments_from(parts: &Vec<String>, from: usize) -> (r: Vec<String>)
    requires
        from <= parts@.len(),
    ensures
        strings_view(r@) == segments_of(strings_view(parts@).skip(from as int)),
{
    let mut r: Vec<String> = Vec::new();
    let mut i: usize = from;
    assert(strings_view(parts@).subrange(from as int, from as int) =~= Seq::<Seq<char>>::empty());
    while i < parts.len()
        invariant
            from <= i <= parts@.len(),
            strings_view(r@) == segments_of(strings_view(parts@).subrange(from as int, i as int)),
        decreases parts@.len() - i,
    {
        let mut segs = split_on(parts[i].as_str(), '/');
        let ghost before = strings_view(r@);
        let ghost added = strings_view(segs@);
        r.append(&mut segs);
        assert(strings_view(r@) =~= before + added);
        assert(strings_view(parts@).subrange(from as int, i + 1).drop_last() =~= strings_view(
            parts@,
        ).subrange(from as int, i as int));
        i = i + 1;
    }
    assert(strings_view(parts@).subrange(from as int, parts@.len() as int) =~= strings_view(
        parts@,
    ).skip(from as int));
    r
}

/// Decodes the scheme and path of a URI into a typed reference.
pub fn decode_parts(scheme: &str, path: &str) -> (r: Result<GitUri, GitUriError>)
    ensures
        decoded_view(r) == decode_spec(scheme@, path@),
{
    if !same_text(&scheme.to_owned(), "git") {
        return Err(GitUriError::UnsupportedScheme { scheme: scheme.to_owned() });
    }
    let parts = split_on(path, ':');
    proof {
        crate::text::lemma_split_nonempty(path@, ':');
    }
    let kind = &parts[0];
    let is_object = same_text(kind, "object");
    let is_blob = same_text(kind, "blob");
    let is_tree = same_text(kind, "tree");
    let is_commit = same_text(kind, "commit");
    if !is_object && !is_blob && !is_tree && !is_commit {
        return Err(GitUriError::UnknownKind { kind: kind.clone() });
    }
    if parts.len() < 2 {
        return Err(GitUriError::MissingComponent);
    }
    if is_commit {
        if parts[1].unicode_len() == 0 {
            return Err(GitUriError::MissingComponent);
        }
        let hash = parts[1].clone();
        if parts.len() == 2 {
            return Ok(GitUri::Commit { hash, path: None });
        }
        let link = &parts[2];
        if same_text(link, "tree") {
            let path = segments_from(&parts, 3);
            Ok(GitUri::Commit { hash, path: Some(CommitPath::Tree { path }) })
        } else if same_text(link, "parent") {
            let path = segments_from(&parts, 3);
            Ok(GitUri::Commit { hash, path: Some(CommitPath::Parent { path }) })
        } else {
            Err(GitUriError::InvalidUri)
        }
    } else if is_tree {
        let segs = split_on(parts[1].as_str(), '/');
        proof {
            crate::text::lemma_split_nonempty(parts@[1]@, '/');
        }
        if segs[0].unicode_len() == 0 {
            return Err(GitUriError::MissingComponent);
        }
        if parts.len() > 2 {
            return Err(GitUriError::InvalidUri);
        }
        let hash = segs[0].clone();
        let path = suffix_from(&segs, 1);
        Ok(GitUri::Tree { hash, path })
    } else if parts[1].unicode_len() == 0 {
        Err(GitUriError::MissingComponent)
    } else if parts.len() > 2 {
        Err(GitUriError::InvalidUri)
    } else if is_object {
        Ok(GitUri::Object { hash: parts[1].clone() })
    } else {
        Ok(GitUri::Blob { hash: parts[1].clone() })
    }
}

/// Decodes a `git:` URI into a typed reference. A string that is no URL at
/// all is an [`GitUriError::InvalidUri`].
pub fn decode_url(uri: &str) -> (r: Result<GitUri, GitUriError>)
    ensures
        decoded_view(r) == decode_url_spec(uri@),
{
    match parse_url(uri) {
        Ok((scheme, path)) => decode_parts(scheme.as_str(), path.as_str()),
        Err(_) => Err(GitUriError::InvalidUri),
    }
}

} // verus!
