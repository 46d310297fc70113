use vstd::prelude::*;

use crate::error::ShellError;
use crate::path::{directory_spec, existing_spec, join, join_spec, require_directory, require_existing, PathKind};

verus! {

/// A snapshot of the filesystem namespace: each existing path, mapped to
/// whether it is a directory.
pub type Namespace = Map<Seq<char>, bool>;

/// What a probe of `p` finds in `fs`.
pub open spec fn probe(fs: Namespace, p: Seq<char>) -> PathKind {
    if !fs.contains_key(p) {
        PathKind::Missing
    } else if fs[p] {
        PathKind::Directory
    } else {
        PathKind::File
    }
}

/// The namespace after a directory was created at `p`.
pub open spec fn after_make(fs: Namespace, p: Seq<char>) -> Namespace {
    fs.insert(p, true)
}

/// The namespace after the entry at `p` was removed.
pub open spec fn after_remove(fs: Namespace, p: Seq<char>) -> Namespace {
    fs.remove(p)
}

pub open spec fn make_spec(kind: PathKind) -> Result<(), ShellError> {
    match kind {
        PathKind::Missing => Ok(()),
        _ => Err(ShellError::AlreadyExists),
    }
}

/// Decides whether the working directory may change to a path of this kind.
pub fn check_change_directory(target: PathKind) -> (r: Result<(), ShellError>)
    ensures
        r == directory_spec(target),
{
    require_directory(target)
}

/// Decides whether a path of this kind may be listed.
pub fn check_list_directory(target: PathKind) -> (r: Result<(), ShellError>)
    ensures
        r == directory_spec(target),
{
    require_directory(target)
}

/// Decides whether a directory may be created where a path of this kind is:
/// only where nothing exists yet.
pub fn check_make_directory(target: PathKind) -> (r: Result<(), ShellError>)
    ensures
        r == make_spec(target),
{
    match target {
        PathKind::Missing => Ok(()),
        _ => Err(ShellError::AlreadyExists),
    }
}

/// Decides whether a path of this kind may be removed: only where it exists.
pub fn check_remove_directory(target: PathKind) -> (r: Result<(), ShellError>)
    ensures
        r == existing_spec(target),
{
    require_existing(target)
}

/// The paths of the entries named `names` inside `dir`, in the same order.
pub fn listing(dir: &str, names: &Vec<String>) -> (r: Vec<String>)
    ensures
        r@.len() == names@.len(),
        forall|i: int| 0 <= i < names@.len() ==> #[trigger] r@[i]@ == join_spec(dir@, names@[i]@),
{
    let mut r: Vec<String> = Vec::new();
    let mut i: usize = 0;
    while i < names.len()
        invariant
            i <= names@.len(),
            r@.len() == i,
            forall|j: int| 0 <= j < i ==> #[trigger] r@[j]@ == join_spec(dir@, names@[j]@),
        decreases names@.len() - i,
    {
        let p = join(dir, names[i].as_str());
        r.push(p);
        i = i + 1;
    }
    r
}

/// Listing and removal report a missing path as `NotFound`.
pub proof fn lemma_missing_path_not_found(fs: Namespace, p: Seq<char>)
    requires
        !fs.contains_key(p),
    ensures
        directory_spec(probe(fs, p)) == Err::<(), ShellError>(ShellError::NotFound),
        existing_spec(probe(fs, p)) == Err::<(), ShellError>(ShellError::NotFound),
{
}

/// Listing an existing path that is not a directory reports `NotADirectory`.
pub proof fn lemma_file_not_listed(fs: Namespace, p: Seq<char>)
    requires
        fs.contains_key(p),
        !fs[p],
    ensures
        directory_spec(probe(fs, p)) == Err::<(), ShellError>(ShellError::NotADirectory),
{
}

/// Creating the same directory twice fails the second time with `AlreadyExists`.
pub proof fn lemma_make_twice(fs: Namespace, p: Seq<char>)
    requires
        make_spec(probe(fs, p)) is Ok,
    ensures
        make_spec(probe(after_make(fs, p), p)) == Err::<(), ShellError>(ShellError::AlreadyExists),
{
}

/// Creating a directory and then removing it restores the namespace as it was.
pub proof fn lemma_make_then_remove(fs: Namespace, p: Seq<char>)
    requires
        make_spec(probe(fs, p)) is Ok,
    ensures
        existing_spec(probe(after_make(fs, p), p)) is Ok,
        after_remove(after_make(fs, p), p) == fs,
{
    assert(after_remove(after_make(fs, p), p) =~= fs);
}

} // verus!
