use vstd::prelude::*;
use vstd::string::StringExecFns;

use crate::error::ShellError;
use crate::path::{file_name, file_name_spec, PathKind};

verus! {

/// What to start: a program name, looked up the way the platform looks up
/// commands, and its arguments in order.
#[derive(Clone, Debug)]
pub struct ExecutionPlan {
    pub program: String,
    pub arguments: Vec<String>,
}

/// The program that `execute` starts for `path`, found to be of kind `target`:
/// the final component of the path, with the arguments passed on as given.
pub open spec fn execution_spec(path: Seq<char>, target: PathKind, arguments: Option<Seq<String>>)
    -> Result<(Seq<char>, Seq<String>), ShellError>
{
    if target == PathKind::Missing {
        Err(ShellError::NotFound)
    } else {
        match file_name_spec(path) {
            None => Err(ShellError::InvalidPath),
            Some(program) => Ok(
                (
                    program,
                    match arguments {
                        Some(a) => a,
                        None => Seq::empty(),
                    },
                ),
            ),
        }
    }
}

pub open spec fn plan_view(r: Result<ExecutionPlan, ShellError>) -> Result<(Seq<char>, Seq<String>), ShellError> {
    match r {
        Ok(p) => Ok((p.program@, p.arguments@)),
        Err(e) => Err(e),
    }
}

/// Decides what `execute` starts for `path`: fails with `NotFound` where the
/// path does not exist, and with `InvalidPath` where it has no final component.
pub fn plan_execution(path: &str, target: PathKind, arguments: Option<Vec<String>>) -> (r: Result<
    ExecutionPlan,
    ShellError,
>)
    ensures
        plan_view(r) == execution_spec(
            path@,
            target,
            match arguments {
                Some(a) => Some(a@),
                None => None,
            },
        ),
{
    if let PathKind::Missing = target {
        return Err(ShellError::NotFound);
    }
    match file_name(path) {
        None => Err(ShellError::InvalidPath),
        Some(program) => {
            let arguments = match arguments {
                Some(a) => a,
                None => Vec::new(),
            };
            Ok(ExecutionPlan { program, arguments })
        },
    }
}

/// The platform command that reports the effective user.
pub open spec fn identity_command_spec(windows: bool) -> Seq<char> {
    if windows {
        "hostname"@
    } else {
        "whoami"@
    }
}

/// The command to run for the effective user: `hostname` on Windows,
/// `whoami` elsewhere. Its standard output is the answer, unchanged.
pub fn identity_command(windows: bool) -> (r: String)
    ensures
        r@ == identity_command_spec(windows),
{
    if windows {
        String::from_str("hostname")
    } else {
        String::from_str("whoami")
    }
}

/// A snapshot of the running processes: the process table is a subsystem
/// this library does not provide, so this always reports `Unsupported`.
pub fn ps() -> (r: Result<(), ShellError>)
    ensures
        r == Err::<(), ShellError>(ShellError::Unsupported),
{
    Err(ShellError::Unsupported)
}

/// The users logged on: login accounting is a subsystem this library does
/// not provide, so this always reports `Unsupported`.
pub fn who() -> (r: Result<(), ShellError>)
    ensures
        r == Err::<(), ShellError>(ShellError::Unsupported),
{
    Err(ShellError::Unsupported)
}

} // verus!
