use vstd::prelude::*;

use crate::types::{DirectoryTableType, MemoryAccessResult, ProcessId};

verus! {

/// Copies `count` bytes at `address` of a process into a buffer the client owns.
#[derive(Debug, Clone, Copy)]
pub struct DriverCommandMemoryRead {
    pub process_id: ProcessId,
    pub directory_table_type: DirectoryTableType,
    pub address: u64,
    /// Number of bytes to copy; the client's buffer holds at least as many.
    pub count: usize,
    pub result: MemoryAccessResult,
}

impl Default for DriverCommandMemoryRead {
    fn default() -> (r: DriverCommandMemoryRead)
        ensures
            r.process_id == 0,
            r.directory_table_type == DirectoryTableType::Default,
            r.address == 0,
            r.count == 0,
            r.result == MemoryAccessResult::ProcessUnknown,
    {
        DriverCommandMemoryRead {
            process_id: 0,
            directory_table_type: DirectoryTableType::Default,
            address: 0,
            count: 0,
            result: MemoryAccessResult::default(),
        }
    }
}

} // verus!
