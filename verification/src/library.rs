//! The library listing and the `add` selection.
//!
//! `add` compares the argument against each library entry's `file` field by
//! exact string equality and enqueues every entry that matches; an argument
//! that matches nothing selects nothing, and that is no error.

use vstd::prelude::*;
use crate::model::SongInfo;

verus! {

/// Whether one library entry matches an `add` argument: exact equality of
/// the path text.
pub open spec fn file_matches(song: SongInfo, path: Seq<char>) -> bool {
    song.file@ == path
}

/// The indices of the library entries an `add` request enqueues: exactly
/// those whose `file` equals the argument, in library order, each once.
pub fn select_for_add(library: &Vec<SongInfo>, path: &String) -> (r: Vec<usize>)
    ensures
        forall|j: int|
            0 <= j < r@.len() ==> r@[j] < library@.len() && file_matches(
                library@[r@[j] as int],
                path@,
            ),
        forall|i: int|
            0 <= i < library@.len() && file_matches(library@[i], path@) ==> r@.contains(i as usize),
        forall|j1: int, j2: int| 0 <= j1 < j2 < r@.len() ==> r@[j1] < r@[j2],
{
    let mut r: Vec<usize> = Vec::new();
    let mut i: usize = 0;
    while i < library.len()
        invariant
            i <= library.len(),
            forall|j: int| 0 <= j < r@.len() ==> r@[j] < i && file_matches(library@[r@[j] as int], path@),
            forall|k: int|
                0 <= k < i && file_matches(library@[k], path@) ==> r@.contains(k as usize),
            forall|j1: int, j2: int| 0 <= j1 < j2 < r@.len() ==> r@[j1] < r@[j2],
        decreases library.len() - i,
    {
        if library[i].file == *path {
            let ghost prev = r@;
            r.push(i);
            proof {
                assert forall|k: int|
                    0 <= k < i + 1 && file_matches(library@[k], path@) implies r@.contains(
                    k as usize,
                ) by {
                    if k < i {
                        let j = choose|j: int| 0 <= j < prev.len() && prev[j] == (k as usize);
                        assert(r@[j] == k as usize);
                    } else {
                        assert(r@[prev.len() as int] == i as usize);
                    }
                };
            }
        }
        i = i + 1;
    }
    r
}

/// The full library listing: one line per song, its path text, in order.
pub fn listing_lines(library: &Vec<SongInfo>) -> (r: Vec<String>)
    ensures
        r@.len() == library@.len(),
        forall|i: int| 0 <= i < r@.len() ==> r@[i]@ == library@[i].file@,
{
    let mut r: Vec<String> = Vec::new();
    let mut i: usize = 0;
    while i < library.len()
        invariant
            i <= library.len(),
            r@.len() == i,
            forall|j: int| 0 <= j < i ==> r@[j]@ == library@[j].file@,
        decreases library.len() - i,
    {
        r.push(library[i].file.clone());
        i = i + 1;
    }
    r
}

} // verus!
