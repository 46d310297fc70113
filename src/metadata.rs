use vstd::prelude::*;

use crate::error::{outcome, outcome_spec, IoFailure, Operation, ShellError};

verus! {

/// Metadata of one path, as the platform reports it.
#[derive(Clone, Copy, Debug, PartialEq, Eq, Structural)]
pub struct StatRecord {
    /// The preferred block size for I/O.
    pub block_size: u64,
    /// The number of blocks allocated.
    pub block_count: u64,
    /// The total size in bytes.
    pub byte_size: u64,
    /// The id of the owning user.
    pub owner_id: u32,
    /// The id of the owning group.
    pub group_id: u32,
    /// The permission bits of the mode.
    pub permissions: u32,
}

impl StatRecord {
    /// A record holding exactly the given raw values.
    pub fn new(
        block_size: u64,
        block_count: u64,
        byte_size: u64,
        owner_id: u32,
        group_id: u32,
        permissions: u32,
    ) -> (r: StatRecord)
        ensures
            r.block_size == block_size,
            r.block_count == block_count,
            r.byte_size == byte_size,
            r.owner_id == owner_id,
            r.group_id == group_id,
            r.permissions == permissions,
    {
        StatRecord { block_size, block_count, byte_size, owner_id, group_id, permissions }
    }
}

/// The result of `stat` once the metadata was read, or failed to be read:
/// a missing path is `NotFound`, a refused read `AccessDenied`.
pub fn stat_outcome(read: Result<StatRecord, IoFailure>) -> (r: Result<StatRecord, ShellError>)
    ensures
        r == outcome_spec(Operation::Stat, read),
{
    outcome(Operation::Stat, read)
}

/// A read that failed for a missing path makes `stat` report `NotFound`,
/// and one refused for lack of permission `AccessDenied`.
pub proof fn lemma_stat_failures()
    ensures
        outcome_spec(Operation::Stat, Err::<StatRecord, IoFailure>(IoFailure::NotFound)) == Err::<
            StatRecord,
            ShellError,
        >(ShellError::NotFound),
        outcome_spec(Operation::Stat, Err::<StatRecord, IoFailure>(IoFailure::PermissionDenied))
            == Err::<StatRecord, ShellError>(ShellError::AccessDenied),
{
}

} // verus!
