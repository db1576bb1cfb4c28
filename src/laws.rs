//! Properties of decoding and resolution that hold for all inputs.

use vstd::prelude::*;
use crate::resolve::{query_spec, start_spec, walk_from, Phase, QueryModel};
use crate::text::{lacks, lemma_split_concat, lemma_split_without_sep, split_seq};
use crate::uri::{decode_spec, decode_url_spec, decoded_view, segments_of, CommitPathModel, GitUri, GitUriModel};
use crate::error::{ErrorModel, GitUriError};

verus! {

proof fn lemma_split_two(a: Seq<char>, b: Seq<char>, sep: char)
    requires
        lacks(a, sep),
        lacks(b, sep),
    ensures
        split_seq(a + seq![sep] + b, sep) == seq![a, b],
{
    lemma_split_concat(a, b, sep);
    lemma_split_without_sep(a, sep);
    lemma_split_without_sep(b, sep);
    assert(seq![a] + seq![b] =~= seq![a, b]);
}

proof fn lemma_lacks_join(a: Seq<char>, b: Seq<char>, sep: char, c: char)
    requires
        lacks(a, c),
        lacks(b, c),
        sep != c,
    ensures
        lacks(a + seq![sep] + b, c),
{
    let s = a + seq![sep] + b;
    assert forall|i: int| 0 <= i < s.len() implies s[i] != c by {
        if i < a.len() {
            assert(s[i] == a[i]);
        } else if i > a.len() {
            assert(s[i] == b[i - a.len() - 1]);
        }
    }
}

proof fn lemma_words()
    ensures
        lacks("object"@, ':'),
        lacks("tree"@, ':'),
        lacks("commit"@, ':'),
        "object"@ != "commit"@,
        "object"@ != "tree"@,
        "tree"@ != "commit"@,
        "tree"@ != "object"@,
        "commit"@ != "tree"@,
{
    reveal_strlit("object");
    reveal_strlit("tree");
    reveal_strlit("commit");
    assert("object"@[0] != "commit"@[0]);
    assert("object"@.len() != "tree"@.len());
    assert("tree"@.len() != "commit"@.len());
}

/// `git:object:<h>` denotes the object `h` with no path, and resolving it
/// asks the store nothing: no kind check comes before the object is used.
pub proof fn object_uri_decodes_to_object(h: Seq<char>)
    requires
        h.len() > 0,
        lacks(h, ':'),
    ensures
        decode_spec("git"@, "object"@ + seq![':'] + h) == Ok::<GitUriModel, ErrorModel>(GitUriModel::Object(h)),
        start_spec(GitUriModel::Object(h)).phase == Phase::Done,
        query_spec(start_spec(GitUriModel::Object(h))) == QueryModel::Finished(h),
{
    lemma_words();
    lemma_split_two("object"@, h, ':');
}

/// `git:tree:<h>/<a>/<b>` denotes the tree `h` with the path `[a, b]`, and
/// `git:tree:<h>` the tree `h` with an empty path.
pub proof fn tree_uri_decodes_to_tree(h: Seq<char>, a: Seq<char>, b: Seq<char>)
    requires
        h.len() > 0,
        lacks(h, ':'),
        lacks(a, ':'),
        lacks(b, ':'),
        lacks(h, '/'),
        lacks(a, '/'),
        lacks(b, '/'),
    ensures
        decode_spec("git"@, "tree"@ + seq![':'] + (h + seq!['/'] + a + seq!['/'] + b)) == Ok::<GitUriModel, ErrorModel>(
            GitUriModel::Tree(h, seq![a, b]),
        ),
        decode_spec("git"@, "tree"@ + seq![':'] + h) == Ok::<GitUriModel, ErrorModel>(
            GitUriModel::Tree(h, Seq::empty()),
        ),
{
    lemma_words();
    let ab = a + seq!['/'] + b;
    let rest = h + seq!['/'] + ab;
    assert(h + seq!['/'] + a + seq!['/'] + b =~= rest);
    lemma_lacks_join(a, b, '/', ':');
    lemma_lacks_join(h, ab, '/', ':');
    lemma_split_two("tree"@, rest, ':');
    lemma_split_concat(h, ab, '/');
    lemma_split_without_sep(h, '/');
    lemma_split_two(a, b, '/');
    assert(split_seq(rest, '/') =~= seq![h, a, b]);
    assert(split_seq(rest, '/').skip(1) =~= seq![a, b]);
    lemma_split_two("tree"@, h, ':');
    lemma_split_without_sep(h, '/');
    assert(seq![h].skip(1) =~= Seq::<Seq<char>>::empty());
}

/// `git:commit:<h>:tree:<a>/<b>` denotes the commit `h` with the tree path
/// `[a, b]`.
pub proof fn commit_tree_uri_decodes(h: Seq<char>, a: Seq<char>, b: Seq<char>)
    requires
        h.len() > 0,
        lacks(h, ':'),
        lacks(a, ':'),
        lacks(b, ':'),
        lacks(a, '/'),
        lacks(b, '/'),
    ensures
        decode_spec("git"@, "commit"@ + seq![':'] + h + seq![':'] + "tree"@ + seq![':'] + (a + seq!['/'] + b))
            == Ok::<GitUriModel, ErrorModel>(
            GitUriModel::Commit(h, Some(CommitPathModel::Tree(seq![a, b]))),
        ),
{
    lemma_words();
    let ab = a + seq!['/'] + b;
    let head = "commit"@ + seq![':'] + h;
    let path = "commit"@ + seq![':'] + h + seq![':'] + "tree"@ + seq![':'] + ab;
    let mid = head + seq![':'] + "tree"@;
    assert(path =~= mid + seq![':'] + ab);
    lemma_lacks_join(a, b, '/', ':');
    lemma_split_two("commit"@, h, ':');
    lemma_split_concat(head, "tree"@, ':');
    lemma_split_without_sep("tree"@, ':');
    lemma_split_concat(mid, ab, ':');
    lemma_split_without_sep(ab, ':');
    let parts = split_seq(path, ':');
    assert(parts =~= seq!["commit"@, h, "tree"@, ab]);
    lemma_split_two(a, b, '/');
    assert(parts.skip(3) =~= seq![ab]);
    assert(seq![ab].drop_last() =~= Seq::<Seq<char>>::empty());
    assert(segments_of(Seq::<Seq<char>>::empty()) == Seq::<Seq<char>>::empty());
    assert(segments_of(seq![ab]) == segments_of(Seq::<Seq<char>>::empty()) + split_seq(ab, '/'));
    assert(segments_of(seq![ab]) =~= seq![a, b]);
}

/// Walking an empty path yields the starting hash with no query to the store.
pub proof fn empty_walk_is_immediate(h: Seq<char>)
    ensures
        walk_from(h, Seq::empty(), 0).phase == Phase::Done,
        query_spec(walk_from(h, Seq::empty(), 0)) == QueryModel::Finished(h),
{
}

/// Decoding the same URI twice gives the same reference, or the same error.
pub proof fn decoding_is_deterministic(
    uri: Seq<char>,
    first: Result<GitUri, GitUriError>,
    second: Result<GitUri, GitUriError>,
)
    requires
        decoded_view(first) == decode_url_spec(uri),
        decoded_view(second) == decode_url_spec(uri),
    ensures
        decoded_view(first) == decoded_view(second),
{
}

} // verus!
