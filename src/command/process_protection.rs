use vstd::prelude::*;

use crate::types::{DriverFeature, FEATURE_PROCESS_PROTECTION_KERNEL, FEATURE_PROCESS_PROTECTION_ZENITH};

verus! {

/// How strongly the peer guards the calling process against outside inspection.
#[derive(Debug, Clone, Copy, PartialEq, Eq, Structural)]
pub enum ProcessProtectionMode {
    /// No protection.
    Disabled,
    Kernel,
    Zenith,
}

impl ProcessProtectionMode {
    /// The feature bits the peer must have advertised to enter this mode.
    pub open spec fn spec_required_feature(self) -> u64 {
        match self {
            ProcessProtectionMode::Disabled => 0,
            ProcessProtectionMode::Kernel => FEATURE_PROCESS_PROTECTION_KERNEL,
            ProcessProtectionMode::Zenith => FEATURE_PROCESS_PROTECTION_ZENITH,
        }
    }

    /// The feature the peer must have advertised to enter this mode.
    pub fn required_feature(&self) -> (r: DriverFeature)
        ensures
            r.bits == self.spec_required_feature(),
    {
        match self {
            ProcessProtectionMode::Disabled => DriverFeature::empty(),
            ProcessProtectionMode::Kernel => DriverFeature::ProcessProtectionKernel(),
            ProcessProtectionMode::Zenith => DriverFeature::ProcessProtectionZenith(),
        }
    }
}

impl Default for ProcessProtectionMode {
    fn default() -> (r: ProcessProtectionMode)
        ensures
            r == ProcessProtectionMode::Disabled,
    {
        ProcessProtectionMode::Disabled
    }
}

#[derive(Debug, Clone, Copy)]
pub struct DriverCommandProcessProtection {
    pub mode: ProcessProtectionMode,
}

impl Default for DriverCommandProcessProtection {
    fn default() -> (r: DriverCommandProcessProtection)
        ensures
            r.mode == ProcessProtectionMode::Disabled,
    {
        DriverCommandProcessProtection { mode: ProcessProtectionMode::default() }
    }
}

} // verus!
