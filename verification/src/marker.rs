//! How a runtime repository is told from any other directory.
//!
//! A runtime repository holds an entry whose file name has the marker in it.
//! Only the entries count: the path of the directory itself, which every
//! entry's path begins with, says nothing.

use crate::text::{chars_of, contains_text, occurs};
use vstd::prelude::*;

verus! {

/// The text that the file name of some entry of a runtime repository holds.
pub open spec fn marker() -> Seq<char> {
    ".dice"@
}

/// The file name of `path` begins at `start`: no `/` stands at `start` or
/// behind it, and `start` is the beginning of the path or follows a `/`.
pub open spec fn begins_name(path: Seq<char>, start: int) -> bool {
    &&& 0 <= start <= path.len()
    &&& forall|j: int| start <= j < path.len() ==> path[j] != '/'
    &&& start == 0 || path[start - 1] == '/'
}

/// Where the file name of `path` begins: behind its last `/`, or at its
/// beginning where it has none.
pub open spec fn name_start(path: Seq<char>) -> int
    decreases path.len(),
{
    if path.len() == 0 || path.last() == '/' {
        path.len() as int
    } else {
        name_start(path.drop_last())
    }
}

/// The file name of `path`: what follows its last `/`, or all of it where it
/// has none. A path that ends in `/` has the empty file name.
pub open spec fn file_name(path: Seq<char>) -> Seq<char> {
    path.skip(name_start(path))
}

/// At least one of the entries has the marker in its file name.
pub open spec fn some_entry_marked(paths: Seq<Seq<char>>) -> bool {
    exists|i: int| 0 <= i < paths.len() && occurs(file_name(#[trigger] paths[i]), marker())
}

/// A listing names a runtime repository when the directory could be read and
/// the file name of at least one entry holds the marker.
pub open spec fn names_runtime(listing: Option<Seq<Seq<char>>>) -> bool {
    match listing {
        Some(paths) => some_entry_marked(paths),
        None => false,
    }
}

/// The file name of a path begins at one place and no other: behind the last
/// `/`.
pub proof fn law_name_follows_last_slash(path: Seq<char>, start: int)
    ensures
        begins_name(path, start) <==> start == name_start(path),
    decreases path.len(),
{
    if path.len() > 0 && path.last() != '/' {
        let shorter = path.drop_last();
        law_name_follows_last_slash(shorter, start);
        if start == name_start(path) {
            assert forall|j: int| start <= j < path.len() implies path[j] != '/' by {
                if j < shorter.len() {
                    assert(shorter[j] == path[j]);
                }
            }
            assert(start == 0 || shorter[start - 1] == path[start - 1]);
        } else if begins_name(path, start) {
            assert(begins_name(shorter, start));
        }
    }
}

/// The file name of `path`.
pub fn entry_name(path: &str) -> (name: String)
    ensures
        name@ == file_name(path@),
{
    let chars = chars_of(path);
    let mut start: usize = chars.len();
    while start > 0 && chars[start - 1] != '/'
        invariant
            start <= chars.len(),
            forall|j: int| start <= j < chars.len() ==> chars@[j] != '/',
        decreases start,
    {
        start -= 1;
    }
    proof {
        law_name_follows_last_slash(chars@, start as int);
    }
    let mut name = String::new();
    let mut i: usize = start;
    while i < chars.len()
        invariant
            start <= i <= chars.len(),
            name@ == chars@.subrange(start as int, i as int),
        decreases chars.len() - i,
    {
        name.push(chars[i]);
        i += 1;
    }
    name
}

/// Whether the listing of a directory shows a runtime repository. `listing`
/// holds the path of each entry, or `None` where the directory could not be
/// read.
pub fn is_directory_dice_runtime(listing: &Option<Vec<String>>) -> (found: bool)
    ensures
        found == names_runtime(listing.deep_view()),
{
    match listing {
        None => false,
        Some(paths) => {
            let mut i: usize = 0;
            while i < paths.len()
                invariant
                    i <= paths.len(),
                    listing.deep_view() == Some(paths.deep_view()),
                    forall|k: int|
                        0 <= k < i ==> !occurs(file_name(#[trigger] paths@[k]@), marker()),
                decreases paths.len() - i,
            {
                let name = entry_name(paths[i].as_str());
                if contains_text(name.as_str(), ".dice") {
                    proof {
                        let shown = paths.deep_view();
                        assert(shown[i as int] == paths@[i as int]@);
                        assert(0 <= i < shown.len() && occurs(
                            file_name(shown[i as int]),
                            marker(),
                        ));
                    }
                    return true;
                }
                i += 1;
            }
            assert forall|k: int| 0 <= k < paths.deep_view().len() implies !occurs(
                file_name(#[trigger] paths.deep_view()[k]),
                marker(),
            ) by {
                assert(paths.deep_view()[k] == paths@[k]@);
            }
            false
        },
    }
}

} // verus!
