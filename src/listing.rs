//! Tree listings as the object store prints them: one entry per line,
//! `<mode> <kind> <hash>` then a tab and the entry's name.

use vstd::prelude::*;
use crate::text::{split_on, split_seq, strings_view};

verus! {

/// One entry of a tree.
#[derive(Debug, PartialEq, Eq)]
pub struct TreeEntry {
    pub name: String,
    pub hash: String,
}

/// The name and hash of an entry.
pub open spec fn entry_view(e: TreeEntry) -> (Seq<char>, Seq<char>) {
    (e.name@, e.hash@)
}

/// The names and hashes of entries, in order.
pub open spec fn entries_view(v: Seq<TreeEntry>) -> Seq<(Seq<char>, Seq<char>)> {
    v.map_values(|e: TreeEntry| entry_view(e))
}

/// The name and hash that a non-empty listing line holds, if it is well formed.
pub open spec fn entry_of_line(line: Seq<char>) -> Option<(Seq<char>, Seq<char>)> {
    let halves = split_seq(line, '\t');
    let fields = split_seq(halves[0], ' ');
    if halves.len() == 2 && fields.len() == 3 {
        Some((halves[1], fields[2]))
    } else {
        None
    }
}

/// The entries of the given listing lines, empty lines skipped; `None`
/// where a line is malformed.
pub open spec fn entries_of_lines(lines: Seq<Seq<char>>) -> Option<Seq<(Seq<char>, Seq<char>)>>
    decreases lines.len(),
{
    if lines.len() == 0 {
        Some(Seq::empty())
    } else {
        match entries_of_lines(lines.drop_last()) {
            None => None,
            Some(es) => if lines.last().len() == 0 {
                Some(es)
            } else {
                match entry_of_line(lines.last()) {
                    None => None,
                    Some(e) => Some(es.push(e)),
                }
            },
        }
    }
}

/// The entries of a whole listing.
pub open spec fn listing_spec(text: Seq<char>) -> Option<Seq<(Seq<char>, Seq<char>)>> {
    entries_of_lines(split_seq(text, '\n'))
}

/// The hash of the last entry named `name`.
pub open spec fn lookup_spec(entries: Seq<(Seq<char>, Seq<char>)>, name: Seq<char>) -> Option<Seq<char>>
    decreases entries.len(),
{
    if entries.len() == 0 {
        None
    } else if entries.last().0 == name {
        Some(entries.last().1)
    } else {
        lookup_spec(entries.drop_last(), name)
    }
}

/// A malformed line spoils every listing that holds it.
proof fn lemma_malformed_prefix(lines: Seq<Seq<char>>, k: int)
    requires
        0 <= k <= lines.len(),
        entries_of_lines(lines.take(k)) is None,
    ensures
        entries_of_lines(lines) is None,
    decreases lines.len(),
{
    if k == lines.len() {
        assert(lines.take(k) =~= lines);
    } else {
        assert(lines.drop_last().take(k) =~= lines.take(k));
        lemma_malformed_prefix(lines.drop_last(), k);
    }
}

/// The entry that one non-empty line holds.
fn parse_line(line: &str) -> (r: Option<TreeEntry>)
    ensures
        match r {
            Some(e) => entry_of_line(line@) == Some(entry_view(e)),
            None => entry_of_line(line@) is None,
        },
{
    let halves = split_on(line, '\t');
    proof {
        crate::text::lemma_split_nonempty(line@, '\t');
    }
    let fields = split_on(halves[0].as_str(), ' ');
    if halves.len() == 2 && fields.len() == 3 {
        let name = halves[1].clone();
        let hash = fields[2].clone();
        Some(TreeEntry { name, hash })
    } else {
        None
    }
}

/// Parses a tree listing into its entries, in order; `None` where a
/// non-empty line is malformed.
pub fn parse_tree_listing(text: &str) -> (r: Option<Vec<TreeEntry>>)
    ensures
        match r {
            Some(v) => listing_spec(text@) == Some(entries_view(v@)),
            None => listing_spec(text@) is None,
        },
{
    let lines = split_on(text, '\n');
    let ghost ls = strings_view(lines@);
    let mut entries: Vec<TreeEntry> = Vec::new();
    let mut i: usize = 0;
    assert(ls.take(0) =~= Seq::<Seq<char>>::empty());
    while i < lines.len()
        invariant
            i <= lines@.len(),
            ls == strings_view(lines@),
            ls == split_seq(text@, '\n'),
            entries_of_lines(ls.take(i as int)) == Some(entries_view(entries@)),
        decreases lines@.len() - i,
    {
        assert(ls.take(i + 1).drop_last() =~= ls.take(i as int));
        assert(ls.take(i + 1).last() == lines@[i as int]@);
        if lines[i].unicode_len() > 0 {
            match parse_line(lines[i].as_str()) {
                Some(e) => {
                    let ghost before = entries_view(entries@);
                    entries.push(e);
                    assert(entries_view(entries@) =~= before.push(entry_view(e)));
                },
                None => {
                    proof {
                        let pre = ls.take(i + 1);
                        assert(pre.last().len() > 0);
                        assert(entry_of_line(pre.last()) is None);
                        assert(entries_of_lines(pre) is None);
                        lemma_malformed_prefix(ls, i + 1);
                    }
                    return None;
                },
            }
        }
        i = i + 1;
    }
    assert(ls.take(lines@.len() as int) =~= ls);
    Some(entries)
}

/// The hash of the last of `entries` named `name`, if any.
pub fn find_entry(entries: &Vec<TreeEntry>, name: &String) -> (r: Option<String>)
    ensures
        match r {
            Some(h) => lookup_spec(entries_view(entries@), name@) == Some(h@),
            None => lookup_spec(entries_view(entries@), name@) is None,
        },
{
    let ghost es = entries_view(entries@);
    let mut i: usize = entries.len();
    assert(es.take(i as int) =~= es);
    while i > 0
        invariant
            i <= entries@.len(),
            es == entries_view(entries@),
            lookup_spec(es, name@) == lookup_spec(es.take(i as int), name@),
        decreases i,
    {
        let ghost pre = es.take(i as int);
        assert(pre.drop_last() =~= es.take(i - 1));
        assert(pre.last() == entry_view(entries@[i - 1]));
        if entries[i - 1].name.eq(name) {
            return Some(entries[i - 1].hash.clone());
        }
        i = i - 1;
    }
    None
}

} // verus!
