//! Choice of the most recently modified file among a directory's entries.
use vstd::prelude::*;

verus! {

/// What the selector needs to know of one directory entry.
pub struct FileEntry {
    /// Full path of the entry.
    pub path: String,
    /// Final component of the path; empty where it is not valid text.
    pub name: String,
    /// Whether the entry is a regular file.
    pub is_file: bool,
    /// Modification time, in nanoseconds relative to the Unix epoch.
    pub modified: i128,
}

/// A name that begins with the hidden-file marker.
pub open spec fn is_hidden_name(name: Seq<char>) -> bool {
    name.len() > 0 && name[0] == '.'
}

/// An entry that the selector may return: a regular, non-hidden file.
pub open spec fn is_candidate(e: FileEntry) -> bool {
    e.is_file && !is_hidden_name(e.name@)
}

/// `i` is the first candidate with the greatest modification time.
pub open spec fn is_latest_index(entries: Seq<FileEntry>, i: int) -> bool {
    &&& 0 <= i < entries.len()
    &&& is_candidate(entries[i])
    &&& forall|j: int| 0 <= j < entries.len() && is_candidate(#[trigger] entries[j])
            ==> entries[j].modified <= entries[i].modified
    &&& forall|j: int| 0 <= j < i && is_candidate(#[trigger] entries[j])
            ==> entries[j].modified < entries[i].modified
}

/// Returns whether `name` begins with a dot.
pub fn is_hidden(name: &str) -> (r: bool)
    ensures
        r == is_hidden_name(name@),
{
    let n = name.unicode_len();
    n > 0 && name.get_char(0) == '.'
}

/// Index of the most recently modified candidate; among equal times the
/// one listed first. `None` when no entry is a candidate.
pub fn latest_entry_index(entries: &Vec<FileEntry>) -> (r: Option<usize>)
    ensures
        r matches Some(i) ==> is_latest_index(entries@, i as int),
        r is None <==> (forall|j: int| 0 <= j < entries@.len() ==> !is_candidate(#[trigger] entries@[j])),
{
    let mut best: Option<usize> = None;
    let mut i: usize = 0;
    while i < entries.len()
        invariant
            i <= entries@.len(),
            best matches Some(b) ==> is_latest_index(entries@.subrange(0, i as int), b as int),
            best is None ==> (forall|j: int| 0 <= j < i ==> !is_candidate(#[trigger] entries@[j])),
        decreases entries@.len() - i,
    {
        let e = &entries[i];
        if e.is_file && !is_hidden(e.name.as_str()) {
            match best {
                None => {
                    best = Some(i);
                },
                Some(b) => {
                    if e.modified > entries[b].modified {
                        best = Some(i);
                    }
                },
            }
        }
        proof {
            let pre = entries@.subrange(0, i + 1);
            assert forall|j: int| 0 <= j < i + 1 implies #[trigger] pre[j] == entries@[j] by {}
            if let Some(b) = best {
                let old_pre = entries@.subrange(0, i as int);
                assert forall|j: int| 0 <= j < i implies #[trigger] old_pre[j] == entries@[j] by {}
                assert(is_latest_index(pre, b as int));
            }
        }
        i = i + 1;
    }
    proof {
        assert(entries@.subrange(0, i as int) =~= entries@);
    }
    best
}

/// Path of the most recently modified regular, non-hidden file among
/// `entries`, or `None` when there is none.
pub fn pick_latest_file(entries: &Vec<FileEntry>) -> (r: Option<String>)
    ensures
        r is None <==> (forall|j: int| 0 <= j < entries@.len() ==> !is_candidate(#[trigger] entries@[j])),
        r matches Some(p) ==> exists|i: int| is_latest_index(entries@, i) && p@ == #[trigger] entries@[i].path@,
{
    match latest_entry_index(entries) {
        None => None,
        Some(i) => {
            let p = entries[i].path.clone();
            assert(is_latest_index(entries@, i as int) && p@ == entries@[i as int].path@);
            Some(p)
        },
    }
}

/// Only one index is the latest: the selector's answer is determined by
/// the listing.
pub proof fn lemma_latest_index_unique(entries: Seq<FileEntry>, i: int, k: int)
    requires
        is_latest_index(entries, i),
        is_latest_index(entries, k),
    ensures
        i == k,
{
    if i < k {
        assert(is_candidate(entries[i]));
    } else if k < i {
        assert(is_candidate(entries[k]));
    }
}

/// Where the candidates' modification times are pairwise distinct, the
/// latest entry is strictly newer than every other candidate, and it is
/// never a hidden or non-regular entry.
pub proof fn lemma_latest_is_strict_maximum(entries: Seq<FileEntry>, i: int, j: int)
    requires
        forall|a: int, b: int|
            0 <= a < entries.len() && 0 <= b < entries.len() && a != b
                && is_candidate(#[trigger] entries[a]) && is_candidate(#[trigger] entries[b])
                ==> entries[a].modified != entries[b].modified,
        is_latest_index(entries, i),
        0 <= j < entries.len(),
        j != i,
        is_candidate(entries[j]),
    ensures
        entries[j].modified < entries[i].modified,
        entries[i].is_file,
        !is_hidden_name(entries[i].name@),
{
    assert(entries[j].modified <= entries[i].modified);
    assert(entries[j].modified != entries[i].modified);
}

} // verus!
