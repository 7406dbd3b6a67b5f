use vstd::prelude::*;

use crate::types::{DirectoryTableType, ProcessId};

verus! {

/// Lists the running processes into a buffer the client owns.
///
/// The buffer itself is lent to the peer for the one call that handles this command; the payload
/// only carries how many entries it holds.
#[derive(Debug, Clone, Copy)]
pub struct DriverCommandProcessList {
    /// In:
    /// Number of elements the buffer can hold
    pub buffer_capacity: usize,
    /// Out:
    /// Total number of processes.
    /// If this number is greater then `buffer_capacity` the response is truncated.
    pub process_count: usize,
}

impl DriverCommandProcessList {
    /// Whether the peer had more processes than the buffer could hold.
    pub fn is_truncated(&self) -> (r: bool)
        ensures
            r == (self.process_count > self.buffer_capacity),
    {
        self.process_count > self.buffer_capacity
    }
}

impl Default for DriverCommandProcessList {
    fn default() -> (r: DriverCommandProcessList)
        ensures
            r.buffer_capacity == 0,
            r.process_count == 0,
    {
        DriverCommandProcessList { buffer_capacity: 0, process_count: 0 }
    }
}

/// Lists the modules of one process into a buffer the client owns.
#[derive(Debug, Clone, Copy)]
pub struct DriverCommandProcessModules {
    /// In:
    /// Process id of the target
    pub process_id: ProcessId,
    /// In:
    /// Type of the directory tabe to use when iterating the processes modules.
    pub directory_table_type: DirectoryTableType,
    /// In:
    /// Number of elements the buffer can hold
    pub buffer_capacity: usize,
    /// Out:
    /// Total number of module.
    /// If this number is greater then `buffer_capacity` the response is truncated.
    pub module_count: usize,
    /// Out:
    /// If true the process is unknown / can not be resolved
    pub process_unknown: bool,
}

impl DriverCommandProcessModules {
    /// Whether the process had more modules than the buffer could hold.
    pub fn is_truncated(&self) -> (r: bool)
        ensures
            r == (self.module_count > self.buffer_capacity),
    {
        self.module_count > self.buffer_capacity
    }
}

impl Default for DriverCommandProcessModules {
    fn default() -> (r: DriverCommandProcessModules)
        ensures
            r.process_id == 0,
            r.directory_table_type == DirectoryTableType::Default,
            r.buffer_capacity == 0,
            r.module_count == 0,
            r.process_unknown,
    {
        DriverCommandProcessModules {
            process_id: 0,
            directory_table_type: DirectoryTableType::Default,
            buffer_capacity: 0,
            module_count: 0,
            process_unknown: true,
        }
    }
}

} // verus!
