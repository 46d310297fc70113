use termease::directory::{check_change_directory, check_list_directory, check_make_directory, check_remove_directory, listing};
use termease::error::{classify, outcome, IoFailure, Operation, ShellError};
use termease::path::{file_name, join, PathKind};
use termease::workdir::WorkingDirectory;

fn names(items: &[&str]) -> Vec<String> {
    items.iter().map(|s| s.to_string()).collect()
}

#[test]
fn missing_paths_are_not_found() {
    assert_eq!(check_list_directory(PathKind::Missing), Err(ShellError::NotFound));
    assert_eq!(check_remove_directory(PathKind::Missing), Err(ShellError::NotFound));
    assert_eq!(check_change_directory(PathKind::Missing), Err(ShellError::NotFound));
}

#[test]
fn listing_a_file_is_not_a_directory() {
    assert_eq!(check_list_directory(PathKind::File), Err(ShellError::NotADirectory));
    assert_eq!(check_change_directory(PathKind::File), Err(ShellError::NotADirectory));
    assert_eq!(check_list_directory(PathKind::Directory), Ok(()));
}

#[test]
fn make_twice_fails_with_already_exists() {
    assert_eq!(check_make_directory(PathKind::Missing), Ok(()));
    assert_eq!(check_make_directory(PathKind::Directory), Err(ShellError::AlreadyExists));
    assert_eq!(check_make_directory(PathKind::File), Err(ShellError::AlreadyExists));
}

#[test]
fn made_directory_can_be_removed() {
    assert_eq!(check_make_directory(PathKind::Missing), Ok(()));
    assert_eq!(check_remove_directory(PathKind::Directory), Ok(()));
}

#[test]
fn make_failures_are_classified() {
    let r: Result<(), IoFailure> = Err(IoFailure::NotFound);
    assert_eq!(outcome(Operation::MakeDirectory, r), Err(ShellError::InvalidParent));
    assert_eq!(classify(Operation::MakeDirectory, IoFailure::AlreadyExists), ShellError::AlreadyExists);
    assert_eq!(classify(Operation::MakeDirectory, IoFailure::NotADirectory), ShellError::InvalidParent);
    assert_eq!(outcome(Operation::MakeDirectory, Ok(())), Ok(()));
}

#[test]
fn remove_failures_are_classified() {
    assert_eq!(classify(Operation::RemoveDirectory, IoFailure::DirectoryNotEmpty), ShellError::NotEmpty);
    assert_eq!(classify(Operation::RemoveDirectory, IoFailure::NotFound), ShellError::NotFound);
    assert_eq!(classify(Operation::RemoveDirectory, IoFailure::NotADirectory), ShellError::NotADirectory);
    assert_eq!(classify(Operation::RemoveDirectory, IoFailure::PermissionDenied), ShellError::PermissionDenied);
    assert_eq!(classify(Operation::RemoveDirectory, IoFailure::Other), ShellError::Io);
}

#[test]
fn other_failures_are_classified() {
    assert_eq!(classify(Operation::ListDirectory, IoFailure::PermissionDenied), ShellError::PermissionDenied);
    assert_eq!(classify(Operation::ChangeDirectory, IoFailure::NotADirectory), ShellError::NotADirectory);
    assert_eq!(classify(Operation::CurrentDirectory, IoFailure::NotFound), ShellError::InvalidPath);
    assert_eq!(classify(Operation::Spawn, IoFailure::NotFound), ShellError::SpawnFailed);
    assert_eq!(classify(Operation::Search, IoFailure::PermissionDenied), ShellError::PermissionDenied);
    assert_eq!(classify(Operation::Search, IoFailure::NotFound), ShellError::Io);
}

#[test]
fn listing_joins_entries_to_directory() {
    let entries = names(&["tc_test", "other"]);
    let items = listing("/tmp", &entries);
    assert_eq!(items, vec!["/tmp/tc_test".to_string(), "/tmp/other".to_string()]);
    assert!(items.iter().any(|p| p == "/tmp/tc_test"));
    let after = listing("/tmp", &names(&["other"]));
    assert!(!after.iter().any(|p| p == "/tmp/tc_test"));
    assert_eq!(listing("/tmp", &Vec::new()), Vec::<String>::new());
}

#[test]
fn join_inserts_one_separator() {
    assert_eq!(join("/tmp", "a"), "/tmp/a");
    assert_eq!(join("/tmp/", "a"), "/tmp/a");
    assert_eq!(join("", "a"), "a");
    assert_eq!(join(".", "a"), "./a");
}

#[test]
fn file_name_takes_final_component() {
    assert_eq!(file_name("/bin/true"), Some("true".to_string()));
    assert_eq!(file_name("/usr/bin/"), Some("bin".to_string()));
    assert_eq!(file_name("foo/."), Some("foo".to_string()));
    assert_eq!(file_name("a/./b/./"), Some("b".to_string()));
    assert_eq!(file_name("true"), Some("true".to_string()));
    assert_eq!(file_name("/"), None);
    assert_eq!(file_name("."), None);
    assert_eq!(file_name(".."), None);
    assert_eq!(file_name("a/.."), None);
    assert_eq!(file_name(""), None);
}

#[test]
fn test_chdir_backwards() {
    let mut wd = WorkingDirectory::root();
    assert_eq!(wd.change_directory("/home/user", PathKind::Directory), Ok(()));
    let old = wd.current_directory();
    assert_eq!(wd.change_directory("..", PathKind::Directory), Ok(()));
    let new = wd.current_directory();
    assert_ne!(new, old);
    assert_eq!(new, "/home");
}

#[test]
fn test_chdir_forwards() {
    let mut wd = WorkingDirectory::root();
    assert_eq!(wd.change_directory("/tmp", PathKind::Directory), Ok(()));
    let old = wd.current_directory();
    assert_eq!(wd.change_directory("test", PathKind::Directory), Ok(()));
    let new = wd.current_directory();
    assert_ne!(new, old);
    assert_eq!(new, "/tmp/test");
    assert_eq!(wd.change_directory("..", PathKind::Directory), Ok(()));
    assert_eq!(wd.current_directory(), "/tmp");
}

#[test]
fn change_directory_resolves_lexically() {
    let mut wd = WorkingDirectory::root();
    assert_eq!(wd.current_directory(), "/");
    assert_eq!(wd.change_directory("a/./b/../c//", PathKind::Directory), Ok(()));
    assert_eq!(wd.current_directory(), "/a/c");
    assert_eq!(wd.change_directory("/usr/bin", PathKind::Directory), Ok(()));
    assert_eq!(wd.current_directory(), "/usr/bin");
    assert_eq!(wd.change_directory("../../..", PathKind::Directory), Ok(()));
    assert_eq!(wd.current_directory(), "/");
}

#[test]
fn failed_change_directory_stays() {
    let mut wd = WorkingDirectory::root();
    assert_eq!(wd.change_directory("/tmp", PathKind::Directory), Ok(()));
    assert_eq!(wd.change_directory("missing", PathKind::Missing), Err(ShellError::NotFound));
    assert_eq!(wd.change_directory("file", PathKind::File), Err(ShellError::NotADirectory));
    assert_eq!(wd.current_directory(), "/tmp");
}
