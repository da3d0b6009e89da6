//! Naming a mirror after its URL.

use vstd::prelude::*;
use vstd::string::StrSliceExecFns;

verus! {

/// The suffix that a repository URL may carry and a mirror's name does not.
pub open spec fn git_suffix() -> Seq<char> {
    seq!['.', 'g', 'i', 't']
}

/// Where the last segment of `url` starts: behind its last `/`, or at the
/// very beginning if it has none.
pub open spec fn segment_start(url: Seq<char>) -> int {
    match url.index_of_last('/') {
        Some(i) => i + 1,
        None => 0,
    }
}

/// What follows the last `/` of `url`; all of `url` if it has no `/`.
pub open spec fn last_segment(url: Seq<char>) -> Seq<char> {
    url.skip(segment_start(url))
}

/// `s` without a trailing `.git`.
pub open spec fn strip_git_suffix(s: Seq<char>) -> Seq<char> {
    if git_suffix().is_suffix_of(s) {
        s.take(s.len() - 4)
    } else {
        s
    }
}

/// The name under which the repository at `url` is mirrored: the last
/// segment of the URL, without a trailing `.git`.
pub open spec fn repo_name(url: Seq<char>) -> Seq<char> {
    strip_git_suffix(last_segment(url))
}

/// `k` is where the last segment of `url` starts: no `/` follows, and
/// either a `/` stands just before or `url` has none at all.
pub open spec fn is_segment_start(url: Seq<char>, k: int) -> bool {
    &&& 0 <= k <= url.len()
    &&& k > 0 ==> url[k - 1] == '/'
    &&& forall|j: int| k <= j < url.len() ==> url[j] != '/'
}

/// There is exactly one place where the last segment starts, and
/// [`segment_start`] is that place.
pub proof fn lemma_segment_start_unique(url: Seq<char>, k: int)
    ensures
        is_segment_start(url, segment_start(url)),
        is_segment_start(url, k) ==> k == segment_start(url),
{
    url.index_of_last_ensures('/');
    if is_segment_start(url, k) {
        match url.index_of_last('/') {
            Some(i) => {
                if k <= i {
                    assert(url[i] != '/');
                }
                if k > i + 1 {
                    assert(url[k - 1] == '/');
                }
            },
            None => {
                if k > 0 {
                    assert(url[k - 1] == '/');
                    assert(url.contains('/'));
                }
            },
        }
    }
}

/// A mirror's name holds no `/`, so it is a single path segment.
pub proof fn lemma_repo_name_is_one_segment(url: Seq<char>)
    ensures
        !repo_name(url).contains('/'),
        !last_segment(url).contains('/'),
{
    lemma_segment_start_unique(url, 0);
    let k: int = segment_start(url);
    let segment = last_segment(url);
    assert forall|i: int| 0 <= i < segment.len() implies segment[i] != '/' by {
        assert(segment[i] == url[k + i]);
    }
    let name = repo_name(url);
    assert forall|i: int| 0 <= i < name.len() implies name[i] != '/' by {
        assert(name[i] == segment[i]);
    }
}

/// A URL without any `/` is its own last segment: its name is the whole
/// URL, without a trailing `.git`.
pub proof fn lemma_repo_name_without_slash(url: Seq<char>)
    requires
        !url.contains('/'),
    ensures
        repo_name(url) == strip_git_suffix(url),
{
    url.index_of_last_ensures('/');
    assert(url.skip(0) =~= url);
}

/// The last segment ends in `.git` exactly when the URL does, and the name
/// is then what stands between the last `/` and that suffix.
pub proof fn lemma_repo_name_of_git_url(url: Seq<char>)
    ensures
        git_suffix().is_suffix_of(last_segment(url)) <==> git_suffix().is_suffix_of(url),
        git_suffix().is_suffix_of(url) ==> segment_start(url) <= url.len() - 4 && repo_name(url)
            == url.subrange(segment_start(url), url.len() - 4),
        !git_suffix().is_suffix_of(url) ==> repo_name(url) == last_segment(url),
{
    lemma_segment_start_unique(url, 0);
    let k: int = segment_start(url);
    let n: int = url.len() as int;
    let segment = last_segment(url);
    let suffix = git_suffix();
    if suffix.is_suffix_of(url) {
        let tail = url.subrange(n - 4, n);
        assert(suffix =~= tail);
        assert(url[n - 4] == tail[0] && url[n - 3] == tail[1]);
        assert(url[n - 2] == tail[2] && url[n - 1] == tail[3]);
        if k > n - 4 {
            assert(url[k - 1] == '/');
        }
        assert(segment.subrange(segment.len() - 4, segment.len() as int) =~= tail);
        assert(segment.take(segment.len() - 4) =~= url.subrange(k, n - 4));
    }
    if suffix.is_suffix_of(segment) {
        assert(segment.subrange(segment.len() - 4, segment.len() as int) =~= url.subrange(
            n - 4,
            n,
        ));
    }
}

/// The name of a repository is the segment that its URL ends in. For a
/// URL made of anything, a `/` and a segment `name` without `/`, the
/// mirror's name is `name` if the URL stops there and `name` does not
/// itself end in `.git`, and it is `name` too if `.git` follows.
pub proof fn lemma_repo_name_of_segment(prefix: Seq<char>, name: Seq<char>)
    requires
        !name.contains('/'),
    ensures
        repo_name(prefix + seq!['/'] + name + git_suffix()) == name,
        !git_suffix().is_suffix_of(name) ==> repo_name(prefix + seq!['/'] + name) == name,
{
    let plain = prefix + seq!['/'] + name;
    let dotted = plain + git_suffix();
    let k: int = prefix.len() as int + 1;
    assert forall|j: int| k <= j < plain.len() implies plain[j] != '/' by {
        assert(plain[j] == name[j - k]);
        assert(!name.contains(name[j - k]) || name[j - k] != '/');
    }
    assert(plain[k - 1] == '/');
    assert(is_segment_start(plain, k));
    lemma_segment_start_unique(plain, k);
    assert(last_segment(plain) =~= name);

    assert forall|j: int| k <= j < dotted.len() implies dotted[j] != '/' by {
        if j < plain.len() {
            assert(dotted[j] == plain[j]);
        } else {
            assert(dotted[j] == git_suffix()[j - plain.len()]);
        }
    }
    assert(dotted[k - 1] == '/');
    assert(is_segment_start(dotted, k));
    lemma_segment_start_unique(dotted, k);
    let segment = last_segment(dotted);
    assert(segment =~= name + git_suffix());
    assert(segment.subrange(segment.len() - 4, segment.len() as int) =~= git_suffix());
    assert(segment.take(segment.len() - 4) =~= name);
}

/// Derives the name of a mirror from the URL of its repository: what
/// follows the last `/` (the whole URL if there is none), without a
/// trailing `.git`.
pub fn get_repo_name(url: &str) -> (name: &str)
    ensures
        name@ == repo_name(url@),
{
    let len: usize = url.unicode_len();
    let mut start: usize = 0;
    let mut seen: usize = 0;
    for c in it: url.chars()
        invariant
            seen == it.index(),
            it.seq() == url@,
            len == url@.len(),
            start <= seen <= len,
            start > 0 ==> url@[start - 1] == '/',
            forall|j: int| start <= j < seen ==> url@[j] != '/',
    {
        seen = seen + 1;
        if c == '/' {
            start = seen;
        }
    }
    proof {
        assert(is_segment_start(url@, start as int));
        lemma_segment_start_unique(url@, start as int);
        lemma_repo_name_of_git_url(url@);
    }
    let dotted: bool = len - start >= 4 && url.get_char(len - 4) == '.' && url.get_char(len - 3) == 'g'
        && url.get_char(len - 2) == 'i' && url.get_char(len - 1) == 't';
    proof {
        let n: int = len as int;
        if dotted {
            assert(url@.subrange(n - 4, n) =~= git_suffix());
        } else if git_suffix().is_suffix_of(url@) {
            let tail = url@.subrange(n - 4, n);
            assert(tail =~= git_suffix());
            assert(url@[n - 4] == tail[0] && url@[n - 3] == tail[1]);
            assert(url@[n - 2] == tail[2] && url@[n - 1] == tail[3]);
        }
        assert(url@.skip(start as int) =~= url@.subrange(start as int, n));
    }
    let end: usize = if dotted {
        len - 4
    } else {
        len
    };
    url.substring_char(start, end)
}

} // verus!
