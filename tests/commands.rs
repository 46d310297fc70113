use termease::error::{IoFailure, ShellError};
use termease::metadata::{stat_outcome, StatRecord};
use termease::path::PathKind;
use termease::process::{identity_command, plan_execution, ps, who};
use termease::search::{contains_executable, resolve_which, search_directories, EntryInfo, Listing};

fn entry(name: &str, is_dir: bool) -> EntryInfo {
    EntryInfo { name: name.to_string(), is_dir }
}

#[test]
fn search_directories_in_order() {
    assert_eq!(search_directories(false), vec!["/usr/bin".to_string()]);
    assert_eq!(search_directories(true), vec!["/usr/bin".to_string(), "/bin".to_string()]);
}

#[test]
fn which_finds_bin_only_name_when_bin_is_searched() {
    let usr: Listing = Ok(vec![entry("vim", false), entry("ls", false)]);
    let bin: Listing = Ok(vec![entry("busybox", false)]);
    let name = "busybox".to_string();
    assert_eq!(resolve_which(&name, false, &vec![usr.clone()]), Err(ShellError::Unresolvable));
    assert_eq!(resolve_which(&name, true, &vec![usr, bin]), Ok("/bin/busybox".to_string()));
}

#[test]
fn which_prefers_usr_bin_and_returns_full_path() {
    let usr: Listing = Ok(vec![entry("vim", false)]);
    let bin: Listing = Ok(vec![entry("vim", false)]);
    let name = "vim".to_string();
    assert_eq!(resolve_which(&name, true, &vec![usr, bin]), Ok("/usr/bin/vim".to_string()));
}

#[test]
fn which_skips_directories_and_partial_names() {
    let usr: Listing = Ok(vec![entry("vim", true), entry("vimdiff", false), entry("vi", false)]);
    let name = "vim".to_string();
    assert_eq!(resolve_which(&name, false, &vec![usr.clone()]), Err(ShellError::Unresolvable));
    let entries = vec![entry("vim", true), entry("vim", false)];
    assert!(contains_executable(&entries, &name));
    assert!(!contains_executable(&Vec::new(), &name));
}

#[test]
fn which_reports_unreadable_directory() {
    let usr: Listing = Ok(vec![entry("ls", false)]);
    let bin: Listing = Err(IoFailure::PermissionDenied);
    let name = "sh".to_string();
    assert_eq!(resolve_which(&name, true, &vec![usr.clone(), bin]), Err(ShellError::PermissionDenied));
    let found = "ls".to_string();
    let bin: Listing = Err(IoFailure::PermissionDenied);
    assert_eq!(resolve_which(&found, true, &vec![usr, bin]), Ok("/usr/bin/ls".to_string()));
    let broken: Listing = Err(IoFailure::Other);
    assert_eq!(resolve_which(&found, false, &vec![broken]), Err(ShellError::Io));
}

#[test]
fn stat_keeps_reported_block_size() {
    let raw = StatRecord::new(4096, 8, 4096, 1000, 100, 0o755);
    let r = stat_outcome(Ok(raw)).unwrap();
    assert_eq!(r.block_size, 4096);
    assert_eq!(r.block_count, 8);
    assert_eq!(r.byte_size, 4096);
    assert_eq!(r.owner_id, 1000);
    assert_eq!(r.group_id, 100);
    assert_eq!(r.permissions, 0o755);
}

#[test]
fn stat_failures_are_classified() {
    assert_eq!(stat_outcome(Err(IoFailure::NotFound)), Err(ShellError::NotFound));
    assert_eq!(stat_outcome(Err(IoFailure::PermissionDenied)), Err(ShellError::AccessDenied));
    assert_eq!(stat_outcome(Err(IoFailure::Other)), Err(ShellError::Io));
}

#[test]
fn execute_true_runs_by_final_component() {
    let plan = plan_execution("/bin/true", PathKind::File, None).unwrap();
    assert_eq!(plan.program, "true");
    assert!(plan.arguments.is_empty());
}

#[test]
fn execute_passes_arguments_in_order() {
    let args = vec!["1".to_string(), "-a".to_string(), "1".to_string()];
    let plan = plan_execution("/usr/bin/test", PathKind::File, Some(args.clone())).unwrap();
    assert_eq!(plan.program, "test");
    assert_eq!(plan.arguments, args);
}

#[test]
fn execute_rejects_missing_and_nameless_paths() {
    assert_eq!(plan_execution("/bin/nothing", PathKind::Missing, None).err(), Some(ShellError::NotFound));
    assert_eq!(plan_execution("/", PathKind::Directory, None).err(), Some(ShellError::InvalidPath));
    assert_eq!(plan_execution("/bin/..", PathKind::Directory, None).err(), Some(ShellError::InvalidPath));
}

#[test]
fn identity_command_by_platform() {
    assert_eq!(identity_command(false), "whoami");
    assert_eq!(identity_command(true), "hostname");
}

#[test]
fn process_table_and_sessions_are_unsupported() {
    assert_eq!(ps(), Err(ShellError::Unsupported));
    assert_eq!(who(), Err(ShellError::Unsupported));
}
