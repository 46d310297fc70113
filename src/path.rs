use vstd::prelude::*;
use vstd::string::StrSliceExecFns;
use vstd::string::StringExecFns;

use crate::error::ShellError;

verus! {

/// What a probe of the filesystem found at a path.
#[derive(Clone, Copy, Debug, PartialEq, Eq, Structural)]
pub enum PathKind {
    /// Nothing exists at the path.
    Missing,
    /// Something that is not a directory exists at the path.
    File,
    /// A directory exists at the path.
    Directory,
}

pub open spec fn path_exists(kind: PathKind) -> bool {
    kind != PathKind::Missing
}

pub open spec fn is_dir(kind: PathKind) -> bool {
    kind == PathKind::Directory
}

/// The guard of every operation that needs an existing path.
pub open spec fn existing_spec(kind: PathKind) -> Result<(), ShellError> {
    if path_exists(kind) {
        Ok(())
    } else {
        Err(ShellError::NotFound)
    }
}

/// The guard of every operation that needs an existing directory.
pub open spec fn directory_spec(kind: PathKind) -> Result<(), ShellError> {
    match kind {
        PathKind::Missing => Err(ShellError::NotFound),
        PathKind::File => Err(ShellError::NotADirectory),
        PathKind::Directory => Ok(()),
    }
}

/// Succeeds exactly when the path exists.
pub fn require_existing(kind: PathKind) -> (r: Result<(), ShellError>)
    ensures
        r == existing_spec(kind),
{
    match kind {
        PathKind::Missing => Err(ShellError::NotFound),
        _ => Ok(()),
    }
}

/// Succeeds exactly when the path is an existing directory.
pub fn require_directory(kind: PathKind) -> (r: Result<(), ShellError>)
    ensures
        r == directory_spec(kind),
{
    match kind {
        PathKind::Missing => Err(ShellError::NotFound),
        PathKind::File => Err(ShellError::NotADirectory),
        PathKind::Directory => Ok(()),
    }
}

/// `child` appended to `dir`, with one separator between them unless `dir`
/// is empty or already ends in one.
pub open spec fn join_spec(dir: Seq<char>, child: Seq<char>) -> Seq<char> {
    if dir.len() == 0 || dir.last() == '/' {
        dir + child
    } else {
        dir + seq!['/'] + child
    }
}

/// The path of `child` inside `dir`.
pub fn join(dir: &str, child: &str) -> (r: String)
    ensures
        r@ == join_spec(dir@, child@),
{
    let n = dir.unicode_len();
    let mut r = String::from_str(dir);
    if n > 0 && dir.get_char(n - 1) != '/' {
        r.append("/");
    }
    r.append(child);
    proof {
        reveal_strlit("/");
        if n > 0 {
            assert(dir@.last() == dir@[n - 1]);
        }
    }
    r
}

/// The start of the run of non-separator characters that ends at `end`.
pub open spec fn segment_start(s: Seq<char>, end: int) -> int
    decreases end,
{
    if end <= 0 || s[end - 1] == '/' {
        end
    } else {
        segment_start(s, end - 1)
    }
}

proof fn lemma_segment_start(s: Seq<char>, end: int)
    requires
        0 <= end <= s.len(),
    ensures
        0 <= segment_start(s, end) <= end,
        forall|i: int| segment_start(s, end) <= i < end ==> s[i] != '/',
    decreases end,
{
    if end > 0 && s[end - 1] != '/' {
        lemma_segment_start(s, end - 1);
    }
}

pub open spec fn is_dot(seg: Seq<char>) -> bool {
    seg =~= seq!['.']
}

pub open spec fn is_dot_dot(seg: Seq<char>) -> bool {
    seg =~= seq!['.', '.']
}

/// The last component of `s[..end]` when split at separators, leaving out
/// empty components and `.` components.
pub open spec fn last_segment(s: Seq<char>, end: int) -> Option<Seq<char>>
    decreases end,
{
    if end <= 0 || end > s.len() {
        None
    } else if s[end - 1] == '/' {
        last_segment(s, end - 1)
    } else {
        let start = segment_start(s, end);
        if 0 <= start < end && is_dot(s.subrange(start, end)) {
            last_segment(s, start)
        } else {
            Some(s.subrange(start, end))
        }
    }
}

/// The final component of a path: its last component other than `.`,
/// and none where that is `..` or where there is none (`/`, `.`, empty).
pub open spec fn file_name_spec(s: Seq<char>) -> Option<Seq<char>> {
    match last_segment(s, s.len() as int) {
        Some(seg) => if is_dot_dot(seg) {
            None
        } else {
            Some(seg)
        },
        None => None,
    }
}

/// The final component of `path` (see `file_name_spec`).
pub fn file_name(path: &str) -> (r: Option<String>)
    ensures
        r matches Some(n) ==> file_name_spec(path@) == Some(n@),
        r is None ==> file_name_spec(path@) is None,
{
    let n = path.unicode_len();
    let ghost s = path@;
    let mut end: usize = n;
    let mut found: Option<(usize, usize)> = None;
    while end > 0
        invariant
            n == s.len(),
            s == path@,
            end <= n,
            found is None ==> last_segment(s, end as int) == last_segment(s, n as int),
            found matches Some(p) ==> p.0 < p.1 <= n && last_segment(s, n as int) == Some(
                s.subrange(p.0 as int, p.1 as int),
            ),
            found is Some ==> end == 0,
        decreases end,
    {
        if path.get_char(end - 1) == '/' {
            end = end - 1;
        } else {
            let mut start: usize = end - 1;
            while start > 0 && path.get_char(start - 1) != '/'
                invariant
                    start < end <= n,
                    n == s.len(),
                    s == path@,
                    s[end - 1] != '/',
                    segment_start(s, end as int) == segment_start(s, start as int),
                    start < end - 1 ==> s[start as int] != '/',
                decreases start,
            {
                start = start - 1;
            }
            proof {
                if start == end - 1 {
                    assert(segment_start(s, end as int) == segment_start(s, end - 1));
                }
                assert(segment_start(s, start as int) == start as int);
                lemma_segment_start(s, end as int);
            }
            if end - start == 1 && path.get_char(start) == '.' {
                proof {
                    assert(is_dot(s.subrange(start as int, end as int)));
                }
                end = start;
            } else {
                proof {
                    assert(!is_dot(s.subrange(start as int, end as int))) by {
                        if is_dot(s.subrange(start as int, end as int)) {
                            assert(s.subrange(start as int, end as int)[0] == s[start as int]);
                        }
                    }
                }
                found = Some((start, end));
                end = 0;
            }
        }
    }
    match found {
        None => None,
        Some((start, stop)) => {
            let seg = path.substring_char(start, stop);
            if stop - start == 2 && seg.get_char(0) == '.' && seg.get_char(1) == '.' {
                proof {
                    assert(is_dot_dot(seg@));
                }
                None
            } else {
                proof {
                    if is_dot_dot(seg@) {
                        assert(seg@[0] == '.' && seg@[1] == '.');
                    }
                }
                Some(seg.to_owned())
            }
        }
    }
}

} // verus!
