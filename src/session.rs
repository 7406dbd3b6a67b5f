use vstd::prelude::*;

use crate::command::{CommandKind, DriverCommandInitialize, InitializeResult, VersionInfo};
use crate::peer::{copy_outcome, enumeration_fill, DriverPeer};
use crate::result::{CommandResult, COMMAND_RESULT_SUCCESS};
use crate::types::{DriverFeature, MemoryAccessResult, FEATURE_MEMORY_READ};

verus! {

/// Why the client could not open a session.
#[derive(Debug, Clone, Copy, PartialEq, Eq, Structural)]
pub enum NegotiationError {
    /// The dispatch of `Initialize` itself failed with this status.
    Dispatch { status: CommandResult },
    /// Client and peer speak different protocol versions: only the two versions are meaningful,
    /// whatever the rest of the answer holds.
    VersionMismatch { client_protocol_version: u32, driver_protocol_version: u32 },
    /// The peer answered, but its privileged component is not in place.
    Unavailable,
}

/// The client's side of a session, as `Initialize` negotiated it.
#[derive(Debug, Clone, Copy)]
pub struct DriverSession {
    pub protocol_version: u32,
    pub driver_version: VersionInfo,
    pub features: DriverFeature,
}

/// The outcome of an `Initialize` that returned `status` and left `command` behind.
pub open spec fn negotiation_outcome(
    status: CommandResult,
    command: DriverCommandInitialize,
) -> Result<DriverSession, NegotiationError> {
    if status.bits != COMMAND_RESULT_SUCCESS {
        Err(NegotiationError::Dispatch { status })
    } else if command.client_protocol_version != command.driver_protocol_version {
        Err(
            NegotiationError::VersionMismatch {
                client_protocol_version: command.client_protocol_version,
                driver_protocol_version: command.driver_protocol_version,
            },
        )
    } else {
        match command.result {
            InitializeResult::Success => Ok(
                DriverSession {
                    protocol_version: command.driver_protocol_version,
                    driver_version: command.driver_version,
                    features: command.driver_features,
                },
            ),
            InitializeResult::Unavailable => Err(NegotiationError::Unavailable),
        }
    }
}

impl DriverSession {
    /// Opens a session from the answer to `Initialize`. The fields after the two protocol
    /// versions are read only when the versions are equal.
    pub fn negotiate(status: CommandResult, command: &DriverCommandInitialize) -> (r: Result<
        DriverSession,
        NegotiationError,
    >)
        ensures
            r == negotiation_outcome(status, *command),
    {
        if !status.is_success() {
            return Err(NegotiationError::Dispatch { status });
        }
        if command.client_protocol_version != command.driver_protocol_version {
            return Err(
                NegotiationError::VersionMismatch {
                    client_protocol_version: command.client_protocol_version,
                    driver_protocol_version: command.driver_protocol_version,
                },
            );
        }
        match command.result {
            InitializeResult::Success => Ok(
                DriverSession {
                    protocol_version: command.driver_protocol_version,
                    driver_version: command.driver_version,
                    features: command.driver_features,
                },
            ),
            InitializeResult::Unavailable => Err(NegotiationError::Unavailable),
        }
    }

    /// Whether the peer of this session accepts the command.
    pub fn supports(&self, kind: CommandKind) -> (r: bool)
        ensures
            r == kind.spec_supported_by(self.features),
    {
        kind.is_supported_by(self.features)
    }
}

/// When the protocol versions differ, the outcome depends on the two versions alone: two answers
/// that agree on them are refused alike, whatever their other fields hold.
pub proof fn lemma_version_mismatch_ignores_extended_fields(
    status: CommandResult,
    a: DriverCommandInitialize,
    b: DriverCommandInitialize,
)
    requires
        status.bits == COMMAND_RESULT_SUCCESS,
        a.client_protocol_version != a.driver_protocol_version,
        b.client_protocol_version == a.client_protocol_version,
        b.driver_protocol_version == a.driver_protocol_version,
    ensures
        negotiation_outcome(status, a) == negotiation_outcome(status, b),
        negotiation_outcome(status, a) == Err::<DriverSession, NegotiationError>(
            NegotiationError::VersionMismatch {
                client_protocol_version: a.client_protocol_version,
                driver_protocol_version: a.driver_protocol_version,
            },
        ),
{
}

/// A client and a peer that speak the same protocol version open a session with the peer's
/// version and features when the peer is available, and learn that it is not otherwise; at
/// different versions the client learns both versions and nothing else.
pub proof fn lemma_initialize_handshake(peer: DriverPeer, command: DriverCommandInitialize)
    ensures
        negotiation_outcome(
            CommandResult { bits: COMMAND_RESULT_SUCCESS },
            peer.spec_answer_initialize(command),
        ) == if command.client_protocol_version != peer.protocol_version {
            Err(
                NegotiationError::VersionMismatch {
                    client_protocol_version: command.client_protocol_version,
                    driver_protocol_version: peer.protocol_version,
                },
            )
        } else if peer.available {
            Ok(
                DriverSession {
                    protocol_version: peer.protocol_version,
                    driver_version: peer.version,
                    features: peer.features,
                },
            )
        } else {
            Err(NegotiationError::Unavailable)
        },
{
}

/// With the client and an available peer at the same protocol version and the peer advertising
/// memory reads, `Initialize` opens a session that supports them, the peer accepts the read's id,
/// and a read of `count` bytes from a fully mapped range succeeds and delivers exactly those bytes.
pub proof fn lemma_initialize_then_mapped_read(
    peer: DriverPeer,
    command: DriverCommandInitialize,
    buffer: Seq<u8>,
    memory: Seq<u8>,
    count: usize,
)
    requires
        peer.available,
        command.client_protocol_version == peer.protocol_version,
        peer.features.bits & FEATURE_MEMORY_READ == FEATURE_MEMORY_READ,
        count <= buffer.len(),
        count <= memory.len(),
    ensures
        negotiation_outcome(
            CommandResult { bits: COMMAND_RESULT_SUCCESS },
            peer.spec_answer_initialize(command),
        ) == Ok::<DriverSession, NegotiationError>(
            DriverSession {
                protocol_version: peer.protocol_version,
                driver_version: peer.version,
                features: peer.features,
            },
        ),
        CommandKind::spec_from_id(0x03) == Some(CommandKind::MemoryRead),
        CommandKind::MemoryRead.spec_supported_by(peer.features),
        copy_outcome(count, memory.len()) == MemoryAccessResult::Success,
        enumeration_fill(buffer, memory, count as nat).take(count as int) == memory.take(
            count as int,
        ),
{
    assert(FEATURE_MEMORY_READ != 0) by (bit_vector);
    assert(enumeration_fill(buffer, memory, count as nat).take(count as int) =~= memory.take(
        count as int,
    ));
}

} // verus!
