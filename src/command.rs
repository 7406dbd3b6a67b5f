use vstd::prelude::*;

mod cr3;
mod init;
mod input_keyboard;
mod input_mouse;
mod memory_read;
mod memory_write;
mod metrics;
mod modules;
mod process;
mod process_protection;

pub use cr3::{DriverCommandCr3ShenanigansDisable, DriverCommandCr3ShenanigansEnable};
pub use init::{DriverCommandInitialize, InitializeResult, VersionInfo};
pub use input_keyboard::{DriverCommandInputKeyboard, KeyboardState};
pub use input_mouse::{button_held_after, buttons_held_after, DriverCommandInputMouse, MouseState};
pub use memory_read::DriverCommandMemoryRead;
pub use memory_write::DriverCommandMemoryWrite;
pub use metrics::DriverCommandMetricsReportSend;
pub use modules::{resolve_process, ProcessFilter, ProcessModulesResult};
pub use process::{DriverCommandProcessList, DriverCommandProcessModules};
pub use process_protection::{DriverCommandProcessProtection, ProcessProtectionMode};

use crate::types::{
    DriverFeature, FEATURE_CR3_SHENANIGANS, FEATURE_INPUT_KEYBOARD, FEATURE_INPUT_MOUSE,
    FEATURE_MEMORY_READ, FEATURE_MEMORY_WRITE, FEATURE_METRICS, FEATURE_PROCESS_LIST,
    FEATURE_PROCESS_MODULES, FEATURE_PROCESS_PROTECTION_KERNEL, FEATURE_PROCESS_PROTECTION_ZENITH,
};

verus! {

/// A payload type together with its command id. Ids are permanent: once shipped, an id is never
/// given to another command.
pub trait DriverCommand: Default + Copy {
    const COMMAND_ID: u32;
}

/* this command id should always be the same */
impl DriverCommand for DriverCommandInitialize {
    const COMMAND_ID: u32 = 0x00;
}

impl DriverCommand for DriverCommandProcessList {
    const COMMAND_ID: u32 = 0x01;
}

impl DriverCommand for DriverCommandProcessModules {
    const COMMAND_ID: u32 = 0x02;
}

impl DriverCommand for DriverCommandMemoryRead {
    const COMMAND_ID: u32 = 0x03;
}

impl DriverCommand for DriverCommandMemoryWrite {
    const COMMAND_ID: u32 = 0x04;
}

impl DriverCommand for DriverCommandInputKeyboard {
    const COMMAND_ID: u32 = 0x05;
}

impl DriverCommand for DriverCommandInputMouse {
    const COMMAND_ID: u32 = 0x06;
}

impl DriverCommand for DriverCommandMetricsReportSend {
    const COMMAND_ID: u32 = 0x07;
}

impl DriverCommand for DriverCommandProcessProtection {
    const COMMAND_ID: u32 = 0x08;
}

impl DriverCommand for DriverCommandCr3ShenanigansEnable {
    const COMMAND_ID: u32 = 0x09;
}

impl DriverCommand for DriverCommandCr3ShenanigansDisable {
    const COMMAND_ID: u32 = 0x0A;
}

/// The commands of the protocol, one for each payload type.
#[derive(Debug, Clone, Copy, PartialEq, Eq, Structural, Hash)]
pub enum CommandKind {
    Initialize,
    ProcessList,
    ProcessModules,
    MemoryRead,
    MemoryWrite,
    InputKeyboard,
    InputMouse,
    MetricsReportSend,
    ProcessProtection,
    Cr3ShenanigansEnable,
    Cr3ShenanigansDisable,
}

impl CommandKind {
    /// The id of the command, the `COMMAND_ID` of its payload type.
    pub open spec fn spec_id(self) -> u32 {
        match self {
            CommandKind::Initialize => 0x00,
            CommandKind::ProcessList => 0x01,
            CommandKind::ProcessModules => 0x02,
            CommandKind::MemoryRead => 0x03,
            CommandKind::MemoryWrite => 0x04,
            CommandKind::InputKeyboard => 0x05,
            CommandKind::InputMouse => 0x06,
            CommandKind::MetricsReportSend => 0x07,
            CommandKind::ProcessProtection => 0x08,
            CommandKind::Cr3ShenanigansEnable => 0x09,
            CommandKind::Cr3ShenanigansDisable => 0x0A,
        }
    }

    /// The command with the given id, if any.
    pub open spec fn spec_from_id(id: u32) -> Option<CommandKind> {
        if id == 0x00 {
            Some(CommandKind::Initialize)
        } else if id == 0x01 {
            Some(CommandKind::ProcessList)
        } else if id == 0x02 {
            Some(CommandKind::ProcessModules)
        } else if id == 0x03 {
            Some(CommandKind::MemoryRead)
        } else if id == 0x04 {
            Some(CommandKind::MemoryWrite)
        } else if id == 0x05 {
            Some(CommandKind::InputKeyboard)
        } else if id == 0x06 {
            Some(CommandKind::InputMouse)
        } else if id == 0x07 {
            Some(CommandKind::MetricsReportSend)
        } else if id == 0x08 {
            Some(CommandKind::ProcessProtection)
        } else if id == 0x09 {
            Some(CommandKind::Cr3ShenanigansEnable)
        } else if id == 0x0A {
            Some(CommandKind::Cr3ShenanigansDisable)
        } else {
            None
        }
    }

    /// The features of which the peer must have advertised at least one to accept the command;
    /// none for `Initialize`.
    pub open spec fn spec_required_features(self) -> u64 {
        match self {
            CommandKind::Initialize => 0,
            CommandKind::ProcessList => FEATURE_PROCESS_LIST,
            CommandKind::ProcessModules => FEATURE_PROCESS_MODULES,
            CommandKind::MemoryRead => FEATURE_MEMORY_READ,
            CommandKind::MemoryWrite => FEATURE_MEMORY_WRITE,
            CommandKind::InputKeyboard => FEATURE_INPUT_KEYBOARD,
            CommandKind::InputMouse => FEATURE_INPUT_MOUSE,
            CommandKind::MetricsReportSend => FEATURE_METRICS,
            CommandKind::ProcessProtection => FEATURE_PROCESS_PROTECTION_KERNEL
                | FEATURE_PROCESS_PROTECTION_ZENITH,
            CommandKind::Cr3ShenanigansEnable => FEATURE_CR3_SHENANIGANS,
            CommandKind::Cr3ShenanigansDisable => FEATURE_CR3_SHENANIGANS,
        }
    }

    /// Whether a peer with the given features accepts the command.
    pub open spec fn spec_supported_by(self, features: DriverFeature) -> bool {
        self.spec_required_features() == 0 || features.bits & self.spec_required_features() != 0
    }

    pub fn id(self) -> (r: u32)
        ensures
            r == self.spec_id(),
    {
        match self {
            CommandKind::Initialize => 0x00,
            CommandKind::ProcessList => 0x01,
            CommandKind::ProcessModules => 0x02,
            CommandKind::MemoryRead => 0x03,
            CommandKind::MemoryWrite => 0x04,
            CommandKind::InputKeyboard => 0x05,
            CommandKind::InputMouse => 0x06,
            CommandKind::MetricsReportSend => 0x07,
            CommandKind::ProcessProtection => 0x08,
            CommandKind::Cr3ShenanigansEnable => 0x09,
            CommandKind::Cr3ShenanigansDisable => 0x0A,
        }
    }

    /// Looks a command up by its id; `None` for an id no command has.
    pub fn from_id(id: u32) -> (r: Option<CommandKind>)
        ensures
            r == CommandKind::spec_from_id(id),
    {
        if id == 0x00 {
            Some(CommandKind::Initialize)
        } else if id == 0x01 {
            Some(CommandKind::ProcessList)
        } else if id == 0x02 {
            Some(CommandKind::ProcessModules)
        } else if id == 0x03 {
            Some(CommandKind::MemoryRead)
        } else if id == 0x04 {
            Some(CommandKind::MemoryWrite)
        } else if id == 0x05 {
            Some(CommandKind::InputKeyboard)
        } else if id == 0x06 {
            Some(CommandKind::InputMouse)
        } else if id == 0x07 {
            Some(CommandKind::MetricsReportSend)
        } else if id == 0x08 {
            Some(CommandKind::ProcessProtection)
        } else if id == 0x09 {
            Some(CommandKind::Cr3ShenanigansEnable)
        } else if id == 0x0A {
            Some(CommandKind::Cr3ShenanigansDisable)
        } else {
            None
        }
    }

    /// The features of which the peer must have advertised at least one to accept the command.
    pub fn required_features(self) -> (r: DriverFeature)
        ensures
            r.bits == self.spec_required_features(),
    {
        match self {
            CommandKind::Initialize => DriverFeature::empty(),
            CommandKind::ProcessList => DriverFeature::ProcessList(),
            CommandKind::ProcessModules => DriverFeature::ProcessModules(),
            CommandKind::MemoryRead => DriverFeature::MemoryRead(),
            CommandKind::MemoryWrite => DriverFeature::MemoryWrite(),
            CommandKind::InputKeyboard => DriverFeature::InputKeyboard(),
            CommandKind::InputMouse => DriverFeature::InputMouse(),
            CommandKind::MetricsReportSend => DriverFeature::Metrics(),
            CommandKind::ProcessProtection => DriverFeature::ProcessProtectionKernel().union(
                DriverFeature::ProcessProtectionZenith(),
            ),
            CommandKind::Cr3ShenanigansEnable => DriverFeature::CR3Sshenanigans(),
            CommandKind::Cr3ShenanigansDisable => DriverFeature::CR3Sshenanigans(),
        }
    }

    /// Whether a peer with the given features accepts the command.
    pub fn is_supported_by(self, features: DriverFeature) -> (r: bool)
        ensures
            r == self.spec_supported_by(features),
    {
        let required = self.required_features();
        required.is_empty() || features.intersects(required)
    }
}

/// Command ids are a bijection onto the commands: no two commands share an id, and looking a
/// command's id up gives that command back.
pub proof fn lemma_command_ids_bijective()
    ensures
        forall|a: CommandKind, b: CommandKind| #[trigger] a.spec_id() == #[trigger] b.spec_id() ==> a == b,
        forall|k: CommandKind| #[trigger] CommandKind::spec_from_id(k.spec_id()) == Some(k),
        forall|id: u32|
            #![trigger CommandKind::spec_from_id(id)]
            CommandKind::spec_from_id(id) matches Some(k) ==> k.spec_id() == id,
        forall|id: u32|
            #![trigger CommandKind::spec_from_id(id)]
            CommandKind::spec_from_id(id) is None ==> forall|k: CommandKind| k.spec_id() != id,
{
}

/// Each payload type's `COMMAND_ID` is the id of its command.
pub proof fn lemma_payload_command_ids()
    ensures
        DriverCommandInitialize::COMMAND_ID == CommandKind::Initialize.spec_id(),
        DriverCommandProcessList::COMMAND_ID == CommandKind::ProcessList.spec_id(),
        DriverCommandProcessModules::COMMAND_ID == CommandKind::ProcessModules.spec_id(),
        DriverCommandMemoryRead::COMMAND_ID == CommandKind::MemoryRead.spec_id(),
        DriverCommandMemoryWrite::COMMAND_ID == CommandKind::MemoryWrite.spec_id(),
        DriverCommandInputKeyboard::COMMAND_ID == CommandKind::InputKeyboard.spec_id(),
        DriverCommandInputMouse::COMMAND_ID == CommandKind::InputMouse.spec_id(),
        DriverCommandMetricsReportSend::COMMAND_ID == CommandKind::MetricsReportSend.spec_id(),
        DriverCommandProcessProtection::COMMAND_ID == CommandKind::ProcessProtection.spec_id(),
        DriverCommandCr3ShenanigansEnable::COMMAND_ID == CommandKind::Cr3ShenanigansEnable.spec_id(),
        DriverCommandCr3ShenanigansDisable::COMMAND_ID == CommandKind::Cr3ShenanigansDisable.spec_id(),
{
}

} // verus!
