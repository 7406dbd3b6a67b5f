use vstd::prelude::*;

use crate::command::{
    CommandKind, DriverCommandCr3ShenanigansEnable, DriverCommandInitialize, DriverCommandMemoryRead, DriverCommandMemoryWrite,
    DriverCommandProcessList, DriverCommandProcessModules, InitializeResult,
    ProcessProtectionMode, VersionInfo,
};
use crate::result::{
    CommandResult, COMMAND_RESULT_COMMAND_FEATURE_UNSUPPORTED, COMMAND_RESULT_COMMAND_INVALID,
    COMMAND_RESULT_COMMAND_PARAMETER_INVALID, COMMAND_RESULT_SUCCESS,
};
use crate::types::{DirectoryTableType, DriverFeature, MemoryAccessResult, ProcessInfo, ProcessModuleInfo};
use crate::utils::{terminated_message, write_error_message};
use vstd::slice::slice_subrange;
use vstd::string::StringSliceAdditionalSpecFns;

verus! {

/// Written into the error buffer for a command id that no command has.
pub const UNKNOWN_COMMAND_MESSAGE: &'static str = "unknown command id";

/// Written into the error buffer for a command whose feature the peer did not advertise.
pub const UNSUPPORTED_COMMAND_MESSAGE: &'static str = "command not supported by the driver";

/// The peer's side of a session: what it tells clients about itself at initialization, and the
/// features that decide which commands it accepts.
#[derive(Debug, Clone, Copy)]
pub struct DriverPeer {
    pub protocol_version: u32,
    pub version: VersionInfo,
    pub features: DriverFeature,
    /// Whether the privileged component is in place to carry out commands.
    pub available: bool,
}

impl DriverPeer {
    /// The peer's answer to `Initialize`. The peer's protocol version is always reported; the
    /// rest is written only when the client speaks the same protocol version, since the fields
    /// after the versions may be laid out differently otherwise. An unavailable peer reports only
    /// that.
    pub open spec fn spec_answer_initialize(
        self,
        command: DriverCommandInitialize,
    ) -> DriverCommandInitialize {
        if command.client_protocol_version != self.protocol_version {
            DriverCommandInitialize { driver_protocol_version: self.protocol_version, ..command }
        } else if self.available {
            DriverCommandInitialize {
                driver_protocol_version: self.protocol_version,
                result: InitializeResult::Success,
                driver_version: self.version,
                driver_features: self.features,
                ..command
            }
        } else {
            DriverCommandInitialize {
                driver_protocol_version: self.protocol_version,
                result: InitializeResult::Unavailable,
                ..command
            }
        }
    }

    /// Answers `Initialize` in place.
    pub fn handle_initialize(&self, command: &mut DriverCommandInitialize) -> (r: CommandResult)
        ensures
            r.bits == COMMAND_RESULT_SUCCESS,
            *final(command) == self.spec_answer_initialize(*old(command)),
    {
        command.driver_protocol_version = self.protocol_version;
        if command.client_protocol_version == self.protocol_version {
            if self.available {
                command.result = InitializeResult::Success;
                command.driver_version = self.version;
                command.driver_features = self.features;
            } else {
                command.result = InitializeResult::Unavailable;
            }
        }
        CommandResult::Success()
    }

    /// Decides whether a command may be carried out: an unknown id is `CommandInvalid`, a known
    /// one whose feature was not advertised is `CommandFeatureUnsupported`. Either way a message
    /// goes into `error_message`, truncated to it; an accepted command leaves it untouched.
    pub fn accept_command(&self, command_id: u32, error_message: &mut [u8]) -> (r: Result<
        CommandKind,
        CommandResult,
    >)
        ensures
            match CommandKind::spec_from_id(command_id) {
                None => {
                    &&& r == Err::<CommandKind, CommandResult>(
                        CommandResult { bits: COMMAND_RESULT_COMMAND_INVALID },
                    )
                    &&& final(error_message)@ == terminated_message(
                        old(error_message)@,
                        UNKNOWN_COMMAND_MESSAGE.spec_bytes(),
                    )
                },
                Some(kind) => if kind.spec_supported_by(self.features) {
                    &&& r == Ok::<CommandKind, CommandResult>(kind)
                    &&& final(error_message)@ == old(error_message)@
                } else {
                    &&& r == Err::<CommandKind, CommandResult>(
                        CommandResult { bits: COMMAND_RESULT_COMMAND_FEATURE_UNSUPPORTED },
                    )
                    &&& final(error_message)@ == terminated_message(
                        old(error_message)@,
                        UNSUPPORTED_COMMAND_MESSAGE.spec_bytes(),
                    )
                },
            },
    {
        match CommandKind::from_id(command_id) {
            None => {
                write_error_message(error_message, UNKNOWN_COMMAND_MESSAGE);
                Err(CommandResult::CommandInvalid())
            },
            Some(kind) => {
                if kind.is_supported_by(self.features) {
                    Ok(kind)
                } else {
                    write_error_message(error_message, UNSUPPORTED_COMMAND_MESSAGE);
                    Err(CommandResult::CommandFeatureUnsupported())
                }
            },
        }
    }

    /// Whether the peer translates addresses the way a memory command asks: the system's own
    /// directory table base always, the others only with their feature advertised.
    pub fn supports_directory_table(&self, directory_table_type: &DirectoryTableType) -> (r: bool)
        ensures
            r == (self.features.bits & directory_table_type.spec_required_feature()
                == directory_table_type.spec_required_feature()),
    {
        self.features.contains(directory_table_type.required_feature())
    }

    /// Whether the peer can enter the protection mode: leaving protection off always, the
    /// others only with their feature advertised.
    pub fn supports_protection_mode(&self, mode: &ProcessProtectionMode) -> (r: bool)
        ensures
            r == (self.features.bits & mode.spec_required_feature() == mode.spec_required_feature()),
    {
        self.features.contains(mode.required_feature())
    }
}

/// The first `count` elements of a buffer the client lent for one call (input states, a report
/// payload), or a parameter error when the payload claims more elements than the buffer holds.
pub fn lent_prefix<'a, T>(count: usize, buffer: &'a [T]) -> (r: Result<&'a [T], CommandResult>)
    ensures
        match r {
            Ok(elements) => count <= buffer@.len() && elements@ == buffer@.take(count as int),
            Err(status) => count > buffer@.len() && status.bits
                == COMMAND_RESULT_COMMAND_PARAMETER_INVALID,
        },
{
    if count > buffer.len() {
        Err(CommandResult::CommandParameterInvalid())
    } else {
        let elements = slice_subrange(buffer, 0, count);
        assert(elements@ =~= buffer@.take(count as int));
        Ok(elements)
    }
}

/// Records whether the countermeasure against a spoofed directory table base is in place. A
/// failed installation is an outcome of the command, so the dispatch itself succeeds.
pub fn complete_cr3_enable(command: &mut DriverCommandCr3ShenanigansEnable, installed: bool) -> (r:
    CommandResult)
    ensures
        r.bits == COMMAND_RESULT_SUCCESS,
        final(command).success == installed,
        final(command).mitigation_strategy == old(command).mitigation_strategy,
        final(command).mitigation_flags == old(command).mitigation_flags,
{
    command.success = installed;
    CommandResult::Success()
}

/// What a buffer that held `prior` holds after an enumeration of `entries` into its first
/// `capacity` slots: the first `capacity` entries in their order (all of them when there are
/// fewer), then the slots that were not reached, untouched.
pub open spec fn enumeration_fill<T>(prior: Seq<T>, entries: Seq<T>, capacity: nat) -> Seq<T> {
    let n = if entries.len() < capacity {
        entries.len()
    } else {
        capacity
    };
    entries.take(n as int) + prior.skip(n as int)
}

/// Enumerating `entries` into a buffer of `capacity` slots keeps the buffer's length; when there
/// are more entries than slots exactly the first `capacity` entries are written, in order, and
/// otherwise all of them are, with every slot after them left as it was.
pub proof fn lemma_enumeration_truncation<T>(prior: Seq<T>, entries: Seq<T>, capacity: nat)
    requires
        capacity <= prior.len(),
    ensures
        enumeration_fill(prior, entries, capacity).len() == prior.len(),
        capacity < entries.len() ==> {
            &&& enumeration_fill(prior, entries, capacity).take(capacity as int) == entries.take(
                capacity as int,
            )
            &&& enumeration_fill(prior, entries, capacity).skip(capacity as int) == prior.skip(
                capacity as int,
            )
        },
        capacity >= entries.len() ==> {
            &&& enumeration_fill(prior, entries, capacity).take(entries.len() as int) == entries
            &&& enumeration_fill(prior, entries, capacity).skip(entries.len() as int) == prior.skip(
                entries.len() as int,
            )
        },
{
    let filled = enumeration_fill(prior, entries, capacity);
    if capacity < entries.len() {
        assert(filled.take(capacity as int) =~= entries.take(capacity as int));
        assert(filled.skip(capacity as int) =~= prior.skip(capacity as int));
    } else {
        assert(filled.take(entries.len() as int) =~= entries);
        assert(filled.skip(entries.len() as int) =~= prior.skip(entries.len() as int));
    }
}

/// A read of `count` bytes that meets an inaccessible byte after `accessible.len()` readable
/// ones reports a partial success of exactly that many bytes, and those bytes lead the buffer.
pub proof fn lemma_partial_read(prior: Seq<u8>, accessible: Seq<u8>, count: usize)
    requires
        count <= prior.len(),
        accessible.len() < count,
    ensures
        copy_outcome(count, accessible.len()) == (MemoryAccessResult::PartialSuccess {
            bytes_copied: accessible.len() as usize,
        }),
        enumeration_fill(prior, accessible, count as nat).take(accessible.len() as int)
            == accessible,
{
    assert(enumeration_fill(prior, accessible, count as nat).take(accessible.len() as int)
        =~= accessible);
}

/// Copies the first `n` elements of `source` to the front of `buffer`.
fn copy_prefix<T: Copy>(source: &[T], buffer: &mut [T], n: usize)
    requires
        n <= source@.len(),
        n <= old(buffer)@.len(),
    ensures
        final(buffer)@ == source@.take(n as int) + old(buffer)@.skip(n as int),
{
    let mut i: usize = 0;
    while i < n
        invariant
            i <= n,
            n <= source@.len(),
            buffer@.len() == old(buffer)@.len(),
            n <= buffer@.len(),
            forall|j: int| 0 <= j < i ==> buffer@[j] == source@[j],
            forall|j: int| i <= j < buffer@.len() ==> buffer@[j] == old(buffer)@[j],
        decreases n - i,
    {
        buffer[i] = source[i];
        i += 1;
    }
    assert(buffer@ =~= source@.take(n as int) + old(buffer)@.skip(n as int));
}

/// Fills the client's process buffer from the peer's list of processes, in the list's order.
///
/// A capacity beyond the buffer lent for the call is a parameter error and changes nothing.
/// Otherwise the true number of processes is reported even when only `buffer_capacity` of them fit.
pub fn complete_process_list(
    command: &mut DriverCommandProcessList,
    processes: &[ProcessInfo],
    buffer: &mut [ProcessInfo],
) -> (r: CommandResult)
    ensures
        if old(command).buffer_capacity <= old(buffer)@.len() {
            &&& r.bits == COMMAND_RESULT_SUCCESS
            &&& final(command).buffer_capacity == old(command).buffer_capacity
            &&& final(command).process_count == processes@.len()
            &&& final(buffer)@ == enumeration_fill(
                old(buffer)@,
                processes@,
                old(command).buffer_capacity as nat,
            )
        } else {
            &&& r.bits == COMMAND_RESULT_COMMAND_PARAMETER_INVALID
            &&& *final(command) == *old(command)
            &&& final(buffer)@ == old(buffer)@
        },
{
    if command.buffer_capacity > buffer.len() {
        return CommandResult::CommandParameterInvalid();
    }
    let n = if processes.len() < command.buffer_capacity {
        processes.len()
    } else {
        command.buffer_capacity
    };
    copy_prefix(processes, buffer, n);
    command.process_count = processes.len();
    CommandResult::Success()
}

/// Fills the client's module buffer from the modules of the target process, in their order;
/// `modules` is `None` when the process could not be resolved.
///
/// A capacity beyond the buffer lent for the call is a parameter error and changes nothing.
pub fn complete_process_modules(
    command: &mut DriverCommandProcessModules,
    modules: Option<&[ProcessModuleInfo]>,
    buffer: &mut [ProcessModuleInfo],
) -> (r: CommandResult)
    ensures
        final(command).process_id == old(command).process_id,
        final(command).directory_table_type == old(command).directory_table_type,
        final(command).buffer_capacity == old(command).buffer_capacity,
        if old(command).buffer_capacity > old(buffer)@.len() {
            &&& r.bits == COMMAND_RESULT_COMMAND_PARAMETER_INVALID
            &&& *final(command) == *old(command)
            &&& final(buffer)@ == old(buffer)@
        } else {
            &&& r.bits == COMMAND_RESULT_SUCCESS
            &&& match modules {
                None => {
                    &&& final(command).process_unknown
                    &&& final(command).module_count == 0
                    &&& final(buffer)@ == old(buffer)@
                },
                Some(m) => {
                    &&& !final(command).process_unknown
                    &&& final(command).module_count == m@.len()
                    &&& final(buffer)@ == enumeration_fill(
                        old(buffer)@,
                        m@,
                        old(command).buffer_capacity as nat,
                    )
                },
            }
        },
{
    if command.buffer_capacity > buffer.len() {
        return CommandResult::CommandParameterInvalid();
    }
    match modules {
        None => {
            command.process_unknown = true;
            command.module_count = 0;
        },
        Some(m) => {
            let n = if m.len() < command.buffer_capacity {
                m.len()
            } else {
                command.buffer_capacity
            };
            copy_prefix(m, buffer, n);
            command.process_unknown = false;
            command.module_count = m.len();
        },
    }
    CommandResult::Success()
}

/// How a copy of `count` bytes went when only `accessible` of them could be reached.
pub open spec fn copy_outcome(count: usize, accessible: nat) -> MemoryAccessResult {
    if accessible >= count {
        MemoryAccessResult::Success
    } else {
        MemoryAccessResult::PartialSuccess { bytes_copied: accessible as usize }
    }
}

/// Delivers a memory read into the client's buffer. `source` holds the bytes that could be read
/// at the command's address before the first inaccessible one (at least `count` of them when the
/// whole range is mapped), or is `None` when the process could not be resolved.
///
/// A count beyond the buffer lent for the call is a parameter error and changes nothing.
pub fn complete_memory_read(
    command: &mut DriverCommandMemoryRead,
    source: Option<&[u8]>,
    buffer: &mut [u8],
) -> (r: CommandResult)
    ensures
        final(command).process_id == old(command).process_id,
        final(command).directory_table_type == old(command).directory_table_type,
        final(command).address == old(command).address,
        final(command).count == old(command).count,
        if old(command).count > old(buffer)@.len() {
            &&& r.bits == COMMAND_RESULT_COMMAND_PARAMETER_INVALID
            &&& *final(command) == *old(command)
            &&& final(buffer)@ == old(buffer)@
        } else {
            &&& r.bits == COMMAND_RESULT_SUCCESS
            &&& match source {
                None => {
                    &&& final(command).result == MemoryAccessResult::ProcessUnknown
                    &&& final(buffer)@ == old(buffer)@
                },
                Some(s) => {
                    &&& final(command).result == copy_outcome(old(command).count, s@.len())
                    &&& final(buffer)@ == enumeration_fill(
                        old(buffer)@,
                        s@,
                        old(command).count as nat,
                    )
                },
            }
        },
{
    if command.count > buffer.len() {
        return CommandResult::CommandParameterInvalid();
    }
    match source {
        None => {
            command.result = MemoryAccessResult::ProcessUnknown;
        },
        Some(s) => {
            if s.len() >= command.count {
                copy_prefix(s, buffer, command.count);
                command.result = MemoryAccessResult::Success;
            } else {
                copy_prefix(s, buffer, s.len());
                command.result = MemoryAccessResult::PartialSuccess { bytes_copied: s.len() };
            }
        },
    }
    CommandResult::Success()
}

/// Carries out a memory write from the client's buffer. `target` is the memory that could be
/// written at the command's address before the first inaccessible byte (at least `count` bytes
/// when the whole range is mapped), or `None` when the process could not be resolved.
///
/// A count beyond the buffer lent for the call is a parameter error and writes nothing.
pub fn complete_memory_write(
    command: &mut DriverCommandMemoryWrite,
    payload: &[u8],
    target: Option<&mut [u8]>,
) -> (r: CommandResult)
    ensures
        final(command).process_id == old(command).process_id,
        final(command).directory_table_type == old(command).directory_table_type,
        final(command).address == old(command).address,
        final(command).count == old(command).count,
        if old(command).count > payload@.len() {
            &&& r.bits == COMMAND_RESULT_COMMAND_PARAMETER_INVALID
            &&& *final(command) == *old(command)
            &&& match target {
                None => true,
                Some(t) => final(t)@ == t@,
            }
        } else {
            &&& r.bits == COMMAND_RESULT_SUCCESS
            &&& match target {
                None => final(command).result == MemoryAccessResult::ProcessUnknown,
                Some(t) => {
                    &&& final(command).result == copy_outcome(old(command).count, t@.len())
                    &&& final(t)@ == enumeration_fill(
                        t@,
                        payload@.take(old(command).count as int),
                        t@.len(),
                    )
                },
            }
        },
{
    if command.count > payload.len() {
        return CommandResult::CommandParameterInvalid();
    }
    match target {
        None => {
            command.result = MemoryAccessResult::ProcessUnknown;
        },
        Some(t) => {
            if t.len() >= command.count {
                copy_prefix(payload, t, command.count);
                command.result = MemoryAccessResult::Success;
            } else {
                copy_prefix(payload, t, t.len());
                command.result = MemoryAccessResult::PartialSuccess { bytes_copied: t.len() };
            }
        },
    }
    CommandResult::Success()
}

} // verus!
