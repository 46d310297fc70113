use vstd::prelude::*;

verus! {

/// The failure kinds that every operation of this library reports.
#[derive(Clone, Copy, Debug, PartialEq, Eq, Structural)]
pub enum ShellError {
    /// The path or executable does not exist.
    NotFound,
    /// The path exists but is not a directory.
    NotADirectory,
    /// The target of a directory creation already exists.
    AlreadyExists,
    /// The parent of a directory to create does not exist.
    InvalidParent,
    /// The directory to remove still holds entries.
    NotEmpty,
    /// Metadata of the path could not be read for lack of permission.
    AccessDenied,
    /// A directory could not be read or changed for lack of permission.
    PermissionDenied,
    /// The operating system could not start a process.
    SpawnFailed,
    /// No search directory holds an executable of the requested name.
    Unresolvable,
    /// The path has no usable form: no final component, or not representable as text.
    InvalidPath,
    /// The operation needs a subsystem that this library does not provide.
    Unsupported,
    /// Any other failure reported by the operating system.
    Io,
}

/// How an operating-system call failed, as far as this library tells failures apart.
#[derive(Clone, Copy, Debug, PartialEq, Eq, Structural)]
pub enum IoFailure {
    NotFound,
    PermissionDenied,
    AlreadyExists,
    NotADirectory,
    DirectoryNotEmpty,
    Other,
}

/// The operation during which an operating-system call failed.
#[derive(Clone, Copy, Debug, PartialEq, Eq, Structural)]
pub enum Operation {
    ChangeDirectory,
    CurrentDirectory,
    MakeDirectory,
    RemoveDirectory,
    ListDirectory,
    Stat,
    Spawn,
    Search,
}

/// The error that a failure of the operating system means for each operation.
pub open spec fn failure_kind(op: Operation, failure: IoFailure) -> ShellError {
    match op {
        Operation::ChangeDirectory | Operation::ListDirectory => match failure {
            IoFailure::NotFound => ShellError::NotFound,
            IoFailure::NotADirectory => ShellError::NotADirectory,
            IoFailure::PermissionDenied => ShellError::PermissionDenied,
            _ => ShellError::Io,
        },
        Operation::CurrentDirectory => ShellError::InvalidPath,
        Operation::MakeDirectory => match failure {
            IoFailure::NotFound | IoFailure::NotADirectory => ShellError::InvalidParent,
            IoFailure::AlreadyExists => ShellError::AlreadyExists,
            IoFailure::PermissionDenied => ShellError::PermissionDenied,
            _ => ShellError::Io,
        },
        Operation::RemoveDirectory => match failure {
            IoFailure::NotFound => ShellError::NotFound,
            IoFailure::NotADirectory => ShellError::NotADirectory,
            IoFailure::DirectoryNotEmpty => ShellError::NotEmpty,
            IoFailure::PermissionDenied => ShellError::PermissionDenied,
            _ => ShellError::Io,
        },
        Operation::Stat => match failure {
            IoFailure::NotFound | IoFailure::NotADirectory => ShellError::NotFound,
            IoFailure::PermissionDenied => ShellError::AccessDenied,
            _ => ShellError::Io,
        },
        Operation::Spawn => ShellError::SpawnFailed,
        Operation::Search => match failure {
            IoFailure::PermissionDenied => ShellError::PermissionDenied,
            _ => ShellError::Io,
        },
    }
}

/// The error that `failure` means during `op`.
pub fn classify(op: Operation, failure: IoFailure) -> (r: ShellError)
    ensures
        r == failure_kind(op, failure),
{
    match op {
        Operation::ChangeDirectory | Operation::ListDirectory => match failure {
            IoFailure::NotFound => ShellError::NotFound,
            IoFailure::NotADirectory => ShellError::NotADirectory,
            IoFailure::PermissionDenied => ShellError::PermissionDenied,
            _ => ShellError::Io,
        },
        Operation::CurrentDirectory => ShellError::InvalidPath,
        Operation::MakeDirectory => match failure {
            IoFailure::NotFound | IoFailure::NotADirectory => ShellError::InvalidParent,
            IoFailure::AlreadyExists => ShellError::AlreadyExists,
            IoFailure::PermissionDenied => ShellError::PermissionDenied,
            _ => ShellError::Io,
        },
        Operation::RemoveDirectory => match failure {
            IoFailure::NotFound => ShellError::NotFound,
            IoFailure::NotADirectory => ShellError::NotADirectory,
            IoFailure::DirectoryNotEmpty => ShellError::NotEmpty,
            IoFailure::PermissionDenied => ShellError::PermissionDenied,
            _ => ShellError::Io,
        },
        Operation::Stat => match failure {
            IoFailure::NotFound | IoFailure::NotADirectory => ShellError::NotFound,
            IoFailure::PermissionDenied => ShellError::AccessDenied,
            _ => ShellError::Io,
        },
        Operation::Spawn => ShellError::SpawnFailed,
        Operation::Search => match failure {
            IoFailure::PermissionDenied => ShellError::PermissionDenied,
            _ => ShellError::Io,
        },
    }
}

/// The result of an operating-system call made during `op`, in this library's terms.
pub open spec fn outcome_spec<T>(op: Operation, r: Result<T, IoFailure>) -> Result<T, ShellError> {
    match r {
        Ok(v) => Ok(v),
        Err(f) => Err(failure_kind(op, f)),
    }
}

/// Turns the result of an operating-system call made during `op` into this library's terms.
pub fn outcome<T>(op: Operation, r: Result<T, IoFailure>) -> (out: Result<T, ShellError>)
    ensures
        out == outcome_spec(op, r),
{
    match r {
        Ok(v) => Ok(v),
        Err(f) => Err(classify(op, f)),
    }
}

} // verus!
