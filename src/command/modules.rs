use vstd::prelude::*;

use crate::types::{ProcessId, ProcessInfo};
use crate::utils::{c_str_len, fixed_buffer_holds};
use vstd::string::StringSliceAdditionalSpecFns;

verus! {

/// Selects the process a command is about.
#[derive(Debug, Clone, Copy)]
pub enum ProcessFilter<'a> {
    /// Every process matches.
    Any,
    /// The process with this id.
    Id { id: ProcessId },
    /// The processes whose image base name is exactly `name`.
    ImageBaseName { name: &'a str },
}

impl<'a> ProcessFilter<'a> {
    pub open spec fn spec_matches(self, process: ProcessInfo) -> bool {
        match self {
            ProcessFilter::Any => true,
            ProcessFilter::Id { id } => process.process_id == id,
            ProcessFilter::ImageBaseName { name } => process.image_base_name@.take(
                c_str_len(process.image_base_name@) as int,
            ) == name.spec_bytes(),
        }
    }

    /// Whether `process` is selected by this filter.
    pub fn matches(&self, process: &ProcessInfo) -> (r: bool)
        ensures
            r == self.spec_matches(*process),
    {
        match self {
            ProcessFilter::Any => true,
            ProcessFilter::Id { id } => process.process_id == *id,
            ProcessFilter::ImageBaseName { name } => fixed_buffer_holds(
                &process.image_base_name,
                name.as_bytes(),
            ),
        }
    }
}

impl<'a> Default for ProcessFilter<'a> {
    fn default() -> (r: ProcessFilter<'a>)
        ensures
            r matches ProcessFilter::Any,
    {
        ProcessFilter::Any
    }
}

/// How resolving the target of a module enumeration went.
#[derive(Debug, Clone, Copy, PartialEq, Eq, Structural)]
pub enum ProcessModulesResult {
    Success,
    BufferTooSmall,
    /// No process matches the filter.
    ProcessUnknown,
    /// More than one process matches the filter, and none is picked at random.
    ProcessUbiquitous,
}

/// Finds the one process that `filter` selects among `processes`: its index, `ProcessUnknown`
/// when none matches, and `ProcessUbiquitous` when more than one does.
pub fn resolve_process(filter: &ProcessFilter, processes: &[ProcessInfo]) -> (r: Result<
    usize,
    ProcessModulesResult,
>)
    ensures
        match r {
            Ok(i) => {
                &&& i < processes@.len()
                &&& filter.spec_matches(processes@[i as int])
                &&& forall|j: int|
                    0 <= j < processes@.len() && j != i ==> !filter.spec_matches(
                        #[trigger] processes@[j],
                    )
            },
            Err(e) => {
                ||| e == ProcessModulesResult::ProcessUnknown && forall|j: int|
                    0 <= j < processes@.len() ==> !filter.spec_matches(#[trigger] processes@[j])
                ||| e == ProcessModulesResult::ProcessUbiquitous && exists|j: int, k: int|
                    0 <= j < k < processes@.len() && filter.spec_matches(#[trigger] processes@[j])
                        && filter.spec_matches(#[trigger] processes@[k])
            },
        },
{
    let mut found: Option<usize> = None;
    let mut i: usize = 0;
    while i < processes.len()
        invariant
            i <= processes@.len(),
            match found {
                None => forall|j: int| 0 <= j < i ==> !filter.spec_matches(#[trigger] processes@[j]),
                Some(f) => {
                    &&& f < i
                    &&& filter.spec_matches(processes@[f as int])
                    &&& forall|j: int|
                        0 <= j < i && j != f ==> !filter.spec_matches(#[trigger] processes@[j])
                },
            },
        decreases processes@.len() - i,
    {
        if filter.matches(&processes[i]) {
            match found {
                None => {
                    found = Some(i);
                },
                Some(f) => {
                    assert(filter.spec_matches(processes@[f as int]) && filter.spec_matches(
                        processes@[i as int],
                    ));
                    return Err(ProcessModulesResult::ProcessUbiquitous);
                },
            }
        }
        i += 1;
    }
    match found {
        None => Err(ProcessModulesResult::ProcessUnknown),
        Some(f) => Ok(f),
    }
}

} // verus!
