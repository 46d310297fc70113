use vstd::prelude::*;
use vstd::string::StringExecFns;

use crate::error::{classify, failure_kind, IoFailure, Operation, ShellError};
use crate::path::{join, join_spec};

verus! {

/// One entry of a directory as read from the filesystem.
#[derive(Clone, Debug)]
pub struct EntryInfo {
    pub name: String,
    pub is_dir: bool,
}

/// The entries of a search directory in directory order, or why it could not be read.
pub type Listing = Result<Vec<EntryInfo>, IoFailure>;

/// The directories searched for executables, in search order.
pub open spec fn search_dirs(index_bin: bool) -> Seq<Seq<char>> {
    if index_bin {
        seq!["/usr/bin"@, "/bin"@]
    } else {
        seq!["/usr/bin"@]
    }
}

/// The directories to search, `/usr/bin` first and `/bin` only when asked for.
pub fn search_directories(index_bin: bool) -> (r: Vec<String>)
    ensures
        r@.len() == search_dirs(index_bin).len(),
        forall|i: int| 0 <= i < r@.len() ==> #[trigger] r@[i]@ == search_dirs(index_bin)[i],
{
    let mut r: Vec<String> = Vec::new();
    r.push(String::from_str("/usr/bin"));
    if index_bin {
        r.push(String::from_str("/bin"));
    }
    r
}

/// Whether a non-directory entry named `name` is among `entries`.
pub open spec fn has_match(entries: Seq<EntryInfo>, name: Seq<char>) -> bool {
    exists|i: int| 0 <= i < entries.len() && !(#[trigger] entries[i]).is_dir && entries[i].name@ == name
}

/// Whether a non-directory entry named exactly `name` is among `entries`.
pub fn contains_executable(entries: &Vec<EntryInfo>, name: &String) -> (r: bool)
    ensures
        r == has_match(entries@, name@),
{
    let mut i: usize = 0;
    while i < entries.len()
        invariant
            i <= entries@.len(),
            forall|j: int| 0 <= j < i ==> !(!(#[trigger] entries@[j]).is_dir && entries@[j].name@ == name@),
        decreases entries@.len() - i,
    {
        let e = &entries[i];
        if !e.is_dir && e.name == *name {
            return true;
        }
        i = i + 1;
    }
    false
}

/// The outcome of searching `listings[i..]`, the listings of `dirs[i..]`.
pub open spec fn search_from(name: Seq<char>, dirs: Seq<Seq<char>>, listings: Seq<Listing>, i: int)
    -> Result<Seq<char>, ShellError>
    decreases listings.len() - i,
{
    if i < 0 || i >= listings.len() {
        Err(ShellError::Unresolvable)
    } else {
        match listings[i] {
            Err(f) => Err(failure_kind(Operation::Search, f)),
            Ok(entries) => if has_match(entries@, name) {
                Ok(join_spec(dirs[i], name))
            } else {
                search_from(name, dirs, listings, i + 1)
            },
        }
    }
}

/// The outcome of looking for `name` in the search directories chosen by
/// `index_bin`, whose listings are `listings`: the first directory in search
/// order that holds a matching entry gives the directory joined with the name;
/// an unreadable directory met before that fails the search.
pub open spec fn which_spec(name: Seq<char>, index_bin: bool, listings: Seq<Listing>) -> Result<
    Seq<char>,
    ShellError,
> {
    search_from(name, search_dirs(index_bin), listings, 0)
}

pub open spec fn text_result(r: Result<String, ShellError>) -> Result<Seq<char>, ShellError> {
    match r {
        Ok(s) => Ok(s@),
        Err(e) => Err(e),
    }
}

/// Resolves `name` against the listings of the search directories chosen by
/// `index_bin`, given in search order.
pub fn resolve_which(name: &String, index_bin: bool, listings: &Vec<Listing>) -> (r: Result<String, ShellError>)
    requires
        listings@.len() == search_dirs(index_bin).len(),
    ensures
        text_result(r) == which_spec(name@, index_bin, listings@),
{
    let dirs = search_directories(index_bin);
    let ghost sd = search_dirs(index_bin);
    assert(dirs@.len() == sd.len());
    let mut i: usize = 0;
    while i < listings.len()
        invariant
            i <= listings@.len(),
            listings@.len() == dirs@.len(),
            dirs@.len() == sd.len(),
            sd == search_dirs(index_bin),
            forall|k: int| 0 <= k < dirs@.len() ==> #[trigger] dirs@[k]@ == sd[k],
            search_from(name@, sd, listings@, i as int) == which_spec(name@, index_bin, listings@),
        decreases listings@.len() - i,
    {
        match &listings[i] {
            Err(f) => {
                return Err(classify(Operation::Search, *f));
            },
            Ok(entries) => {
                if contains_executable(entries, name) {
                    return Ok(join(dirs[i].as_str(), name.as_str()));
                }
            },
        }
        i = i + 1;
    }
    Err(ShellError::Unresolvable)
}

/// A name found only in `/bin` is unresolvable when `/bin` is left out of the
/// search and resolves to its path there when `/bin` is searched.
pub proof fn lemma_bin_only_name(name: Seq<char>, usr_bin: Vec<EntryInfo>, bin: Vec<EntryInfo>)
    requires
        !has_match(usr_bin@, name),
        has_match(bin@, name),
    ensures
        which_spec(name, false, seq![Ok(usr_bin)]) == Err::<Seq<char>, ShellError>(
            ShellError::Unresolvable,
        ),
        which_spec(name, true, seq![Ok(usr_bin), Ok(bin)]) == Ok::<Seq<char>, ShellError>(
            join_spec("/bin"@, name),
        ),
{
    let one: Seq<Listing> = seq![Ok(usr_bin)];
    let two: Seq<Listing> = seq![Ok(usr_bin), Ok(bin)];
    assert(search_from(name, search_dirs(false), one, 1) == Err::<Seq<char>, ShellError>(
        ShellError::Unresolvable,
    ));
    assert(search_from(name, search_dirs(true), two, 1) == Ok::<Seq<char>, ShellError>(
        join_spec("/bin"@, name),
    ));
}

} // verus!
