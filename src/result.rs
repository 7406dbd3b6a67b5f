use vstd::prelude::*;

verus! {

/// The status of one dispatch: a 64-bit set whose literal values are fixed for good.
///
/// It says whether the command was carried out at all; how it went is reported in the payload's
/// own result fields, which are meaningful only when this is `Success`.
#[derive(Debug, Clone, Copy, PartialEq, Eq, Structural, PartialOrd, Ord, Hash)]
pub struct CommandResult {
    pub bits: u64,
}

pub const COMMAND_RESULT_ERROR: u64 = 0x00;

pub const COMMAND_RESULT_SUCCESS: u64 = 0x01;

pub const COMMAND_RESULT_COMMAND_INVALID: u64 = 0x10;

pub const COMMAND_RESULT_COMMAND_PARAMETER_INVALID: u64 = 0x11;

pub const COMMAND_RESULT_COMMAND_FEATURE_UNSUPPORTED: u64 = 0x12;

#[allow(non_snake_case)]
impl CommandResult {
    /// The command failed for a reason the peer did not classify.
    pub fn Error() -> (r: CommandResult)
        ensures
            r.bits == COMMAND_RESULT_ERROR,
    {
        CommandResult { bits: COMMAND_RESULT_ERROR }
    }

    /// The command was carried out; its output fields are valid.
    pub fn Success() -> (r: CommandResult)
        ensures
            r.bits == COMMAND_RESULT_SUCCESS,
    {
        CommandResult { bits: COMMAND_RESULT_SUCCESS }
    }

    /// The command id is not known to the peer.
    pub fn CommandInvalid() -> (r: CommandResult)
        ensures
            r.bits == COMMAND_RESULT_COMMAND_INVALID,
    {
        CommandResult { bits: COMMAND_RESULT_COMMAND_INVALID }
    }

    /// The payload is structurally invalid (e.g. a count beyond its buffer).
    pub fn CommandParameterInvalid() -> (r: CommandResult)
        ensures
            r.bits == COMMAND_RESULT_COMMAND_PARAMETER_INVALID,
    {
        CommandResult { bits: COMMAND_RESULT_COMMAND_PARAMETER_INVALID }
    }

    /// The command is known but the peer did not advertise the feature it needs.
    pub fn CommandFeatureUnsupported() -> (r: CommandResult)
        ensures
            r.bits == COMMAND_RESULT_COMMAND_FEATURE_UNSUPPORTED,
    {
        CommandResult { bits: COMMAND_RESULT_COMMAND_FEATURE_UNSUPPORTED }
    }

    /// The raw value carried across the boundary.
    pub fn bits(&self) -> (r: u64)
        ensures
            r == self.bits,
    {
        self.bits
    }

    /// Takes a raw status as it came across the boundary, keeping every bit.
    pub fn from_bits_retain(bits: u64) -> (r: CommandResult)
        ensures
            r.bits == bits,
    {
        CommandResult { bits }
    }

    /// Whether this is exactly `Success`.
    pub fn is_success(&self) -> (r: bool)
        ensures
            r == (self.bits == COMMAND_RESULT_SUCCESS),
    {
        self.bits == COMMAND_RESULT_SUCCESS
    }
}

} // verus!
