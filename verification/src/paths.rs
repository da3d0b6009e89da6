//! Mirror locations. A location is a string of segments separated by `/`.

use vstd::prelude::*;
use vstd::string::StrSliceExecFns;
use vstd::string::StringExecFns;
use crate::utils::is_segment_start;
use crate::utils::last_segment;
use crate::utils::lemma_segment_start_unique;

verus! {

/// A location that starts at the root and so stands for itself, whatever
/// directory it is looked up in.
pub open spec fn is_absolute(path: Seq<char>) -> bool {
    path.len() > 0 && path[0] == '/'
}

/// The location of `segment` inside the directory `base`. An absolute
/// `segment` stays as it is. Otherwise it is appended to `base`, after a
/// `/` unless `base` is empty or already ends in one.
pub open spec fn joined(base: Seq<char>, segment: Seq<char>) -> Seq<char> {
    if is_absolute(segment) {
        segment
    } else if base.len() == 0 || base.last() == '/' {
        base + segment
    } else {
        base + seq!['/'] + segment
    }
}

/// Where a repository keeps its one-line description, relative to its root.
pub open spec fn description_slot() -> Seq<char> {
    ".git/description"@
}

/// A joined location always ends in the segment that was asked for, and
/// starts with the base unless the segment is absolute.
pub proof fn lemma_joined_keeps_both(base: Seq<char>, segment: Seq<char>)
    ensures
        segment.is_suffix_of(joined(base, segment)),
        !is_absolute(segment) ==> base.is_prefix_of(joined(base, segment)),
{
    let path = joined(base, segment);
    assert(path.subrange(path.len() - segment.len(), path.len() as int) =~= segment);
    if !is_absolute(segment) {
        assert(path.subrange(0, base.len() as int) =~= base);
    }
}

/// A segment that holds no `/` is found again as the last segment of the
/// location it was joined into, provided the base is not empty.
pub proof fn lemma_joined_last_segment(base: Seq<char>, segment: Seq<char>)
    requires
        !segment.contains('/'),
        base.len() > 0,
    ensures
        last_segment(joined(base, segment)) == segment,
{
    let path = joined(base, segment);
    let k: int = path.len() - segment.len();
    if segment.len() > 0 {
        assert(segment.contains(segment[0]) ==> segment[0] != '/');
    }
    assert(!is_absolute(segment));
    assert forall|j: int| k <= j < path.len() implies path[j] != '/' by {
        assert(path[j] == segment[j - k]);
        assert(segment.contains(segment[j - k]));
    }
    assert(path[k - 1] == '/');
    assert(is_segment_start(path, k));
    lemma_segment_start_unique(path, k);
    assert(path.skip(k) =~= segment);
}

/// Joins a directory and a segment into one location.
pub fn join_path(base: &str, segment: &str) -> (path: String)
    ensures
        path@ == joined(base@, segment@),
{
    if segment.unicode_len() > 0 && segment.get_char(0) == '/' {
        return String::from_str(segment);
    }
    let mut path = String::from_str(base);
    let len: usize = base.unicode_len();
    if len > 0 && base.get_char(len - 1) != '/' {
        proof {
            reveal_strlit("/");
            assert("/"@ =~= seq!['/']);
        }
        path.append("/");
    }
    path.append(segment);
    path
}

/// The file that holds the description of the repository rooted at
/// `repository`.
pub fn description_file(repository: &str) -> (file: String)
    ensures
        file@ == joined(repository@, description_slot()),
{
    join_path(repository, ".git/description")
}

} // verus!
