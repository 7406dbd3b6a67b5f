use vstd::prelude::*;

use crate::utils::{
    fixed_buffer_encoding, fixed_buffer_text, fixed_buffer_to_str, str_to_fixed_buffer, zeroed_buffer,
};
use vstd::string::StringSliceAdditionalSpecFns;

verus! {

pub type ProcessId = u32;

/// The capabilities a peer advertises once, at initialization. Bits are only ever added: a
/// retired bit is never given a new meaning.
#[derive(Debug, Clone, Copy, PartialEq, Eq, Structural, PartialOrd, Ord, Hash)]
pub struct DriverFeature {
    pub bits: u64,
}

pub const FEATURE_PROCESS_LIST: u64 = 0x00_00_00_01;

pub const FEATURE_PROCESS_MODULES: u64 = 0x00_00_00_02;

pub const FEATURE_PROCESS_PROTECTION_KERNEL: u64 = 0x00_00_00_04;

pub const FEATURE_PROCESS_PROTECTION_ZENITH: u64 = 0x00_00_00_08;

pub const FEATURE_MEMORY_READ: u64 = 0x00_00_01_00;

pub const FEATURE_MEMORY_WRITE: u64 = 0x00_00_02_00;

pub const FEATURE_INPUT_KEYBOARD: u64 = 0x00_01_00_00;

pub const FEATURE_INPUT_MOUSE: u64 = 0x00_02_00_00;

pub const FEATURE_METRICS: u64 = 0x01_00_00_00;

pub const FEATURE_DTT_EXPLICIT: u64 = 0x02_00_10_00;

pub const FEATURE_CR3_SHENANIGANS: u64 = 0x04_00_00_00;

#[allow(non_snake_case)]
impl DriverFeature {
    pub fn ProcessList() -> (r: DriverFeature)
        ensures
            r.bits == FEATURE_PROCESS_LIST,
    {
        DriverFeature { bits: FEATURE_PROCESS_LIST }
    }

    pub fn ProcessModules() -> (r: DriverFeature)
        ensures
            r.bits == FEATURE_PROCESS_MODULES,
    {
        DriverFeature { bits: FEATURE_PROCESS_MODULES }
    }

    pub fn ProcessProtectionKernel() -> (r: DriverFeature)
        ensures
            r.bits == FEATURE_PROCESS_PROTECTION_KERNEL,
    {
        DriverFeature { bits: FEATURE_PROCESS_PROTECTION_KERNEL }
    }

    pub fn ProcessProtectionZenith() -> (r: DriverFeature)
        ensures
            r.bits == FEATURE_PROCESS_PROTECTION_ZENITH,
    {
        DriverFeature { bits: FEATURE_PROCESS_PROTECTION_ZENITH }
    }

    pub fn MemoryRead() -> (r: DriverFeature)
        ensures
            r.bits == FEATURE_MEMORY_READ,
    {
        DriverFeature { bits: FEATURE_MEMORY_READ }
    }

    pub fn MemoryWrite() -> (r: DriverFeature)
        ensures
            r.bits == FEATURE_MEMORY_WRITE,
    {
        DriverFeature { bits: FEATURE_MEMORY_WRITE }
    }

    pub fn InputKeyboard() -> (r: DriverFeature)
        ensures
            r.bits == FEATURE_INPUT_KEYBOARD,
    {
        DriverFeature { bits: FEATURE_INPUT_KEYBOARD }
    }

    pub fn InputMouse() -> (r: DriverFeature)
        ensures
            r.bits == FEATURE_INPUT_MOUSE,
    {
        DriverFeature { bits: FEATURE_INPUT_MOUSE }
    }

    pub fn Metrics() -> (r: DriverFeature)
        ensures
            r.bits == FEATURE_METRICS,
    {
        DriverFeature { bits: FEATURE_METRICS }
    }

    pub fn DttExplicit() -> (r: DriverFeature)
        ensures
            r.bits == FEATURE_DTT_EXPLICIT,
    {
        DriverFeature { bits: FEATURE_DTT_EXPLICIT }
    }

    pub fn CR3Sshenanigans() -> (r: DriverFeature)
        ensures
            r.bits == FEATURE_CR3_SHENANIGANS,
    {
        DriverFeature { bits: FEATURE_CR3_SHENANIGANS }
    }
}

impl DriverFeature {
    /// The set without any feature.
    pub fn empty() -> (r: DriverFeature)
        ensures
            r.bits == 0,
    {
        DriverFeature { bits: 0 }
    }

    /// Takes a raw feature set as it came across the boundary, keeping every bit, also those
    /// this build does not know.
    pub fn from_bits_retain(bits: u64) -> (r: DriverFeature)
        ensures
            r.bits == bits,
    {
        DriverFeature { bits }
    }

    pub fn bits(&self) -> (r: u64)
        ensures
            r == self.bits,
    {
        self.bits
    }

    pub fn is_empty(&self) -> (r: bool)
        ensures
            r == (self.bits == 0),
    {
        self.bits == 0
    }

    /// Whether every feature of `other` is in this set.
    pub fn contains(&self, other: DriverFeature) -> (r: bool)
        ensures
            r == (self.bits & other.bits == other.bits),
    {
        self.bits & other.bits == other.bits
    }

    /// Whether some feature of `other` is in this set.
    pub fn intersects(&self, other: DriverFeature) -> (r: bool)
        ensures
            r == (self.bits & other.bits != 0),
    {
        self.bits & other.bits != 0
    }

    /// The features of both sets.
    pub fn union(self, other: DriverFeature) -> (r: DriverFeature)
        ensures
            r.bits == self.bits | other.bits,
    {
        DriverFeature { bits: self.bits | other.bits }
    }

    /// Adds the features of `other` to this set.
    pub fn insert(&mut self, other: DriverFeature)
        ensures
            final(self).bits == old(self).bits | other.bits,
    {
        self.bits = self.bits | other.bits;
    }
}

/// A process as the peer lists it.
#[derive(Debug, Clone, Copy)]
pub struct ProcessInfo {
    pub process_id: ProcessId,
    /// The image's base name as a C string, truncated to the buffer.
    pub image_base_name: [u8; 0x0F],
    pub directory_table_base: u64,
}

impl ProcessInfo {
    /// The image base name, or `None` when its bytes are not well-formed UTF-8.
    pub fn get_image_base_name(&self) -> (r: Option<&str>)
        ensures
            match r {
                Some(t) => fixed_buffer_text(self.image_base_name@) == Some(t@),
                None => fixed_buffer_text(self.image_base_name@) is None,
            },
    {
        fixed_buffer_to_str(&self.image_base_name)
    }

    /// Stores `value` as the image base name; returns whether it fit.
    pub fn set_image_base_name(&mut self, value: &str) -> (fits: bool)
        ensures
            final(self).image_base_name@ == fixed_buffer_encoding(
                old(self).image_base_name@,
                value.spec_bytes(),
            ),
            final(self).process_id == old(self).process_id,
            final(self).directory_table_base == old(self).directory_table_base,
            fits == (value.spec_bytes().len() <= 0x0F),
    {
        str_to_fixed_buffer(&mut self.image_base_name, value)
    }
}

impl Default for ProcessInfo {
    fn default() -> (r: ProcessInfo)
        ensures
            r.process_id == 0,
            r.image_base_name@ == Seq::new(0x0F, |i: int| 0u8),
            r.directory_table_base == 0,
    {
        ProcessInfo { process_id: 0, image_base_name: zeroed_buffer(), directory_table_base: 0 }
    }
}


/// A module loaded into a process, as the peer lists it.
#[derive(Debug, Clone, Copy)]
pub struct ProcessModuleInfo {
    /// The module's base name as a C string, truncated to the buffer.
    pub base_dll_name: [u8; 0x100],
    pub base_address: u64,
    pub module_size: u64,
}

impl ProcessModuleInfo {
    /// The module's base name, or `None` when its bytes are not well-formed UTF-8.
    pub fn get_base_dll_name(&self) -> (r: Option<&str>)
        ensures
            match r {
                Some(t) => fixed_buffer_text(self.base_dll_name@) == Some(t@),
                None => fixed_buffer_text(self.base_dll_name@) is None,
            },
    {
        fixed_buffer_to_str(&self.base_dll_name)
    }

    /// Stores `value` as the module's base name; returns whether it fit.
    pub fn set_base_dll_name(&mut self, value: &str) -> (fits: bool)
        ensures
            final(self).base_dll_name@ == fixed_buffer_encoding(
                old(self).base_dll_name@,
                value.spec_bytes(),
            ),
            final(self).base_address == old(self).base_address,
            final(self).module_size == old(self).module_size,
            fits == (value.spec_bytes().len() <= 0x100),
    {
        str_to_fixed_buffer(&mut self.base_dll_name, value)
    }
}

impl Default for ProcessModuleInfo {
    fn default() -> (r: ProcessModuleInfo)
        ensures
            r.base_dll_name@ == Seq::new(0x100, |i: int| 0u8),
            r.base_address == 0,
            r.module_size == 0,
    {
        ProcessModuleInfo { base_dll_name: zeroed_buffer(), base_address: 0, module_size: 0 }
    }
}

/// How a memory read or write went, when the dispatch itself succeeded.
#[derive(Debug, Clone, Copy, PartialEq, Eq, Structural)]
pub enum MemoryAccessResult {
    /// Every requested byte was copied.
    Success,
    /// The copy ran into an inaccessible region: only the first `bytes_copied` bytes are valid.
    PartialSuccess { bytes_copied: usize },
    /// The target process could not be resolved.
    ProcessUnknown,
    /// The source memory is paged out.
    SourcePagedOut,
    /// The destination memory is paged out.
    DestinationPagedOut,
}

impl Default for MemoryAccessResult {
    fn default() -> (r: MemoryAccessResult)
        ensures
            r == MemoryAccessResult::ProcessUnknown,
    {
        MemoryAccessResult::ProcessUnknown
    }
}

/// Which directory table base the peer translates the target's addresses with.
#[derive(Debug, Clone, Copy, PartialEq, Eq, Structural)]
pub enum DirectoryTableType {
    /// Use the process directory table base specified by the system
    Default,
    /// Manually specify the directory table base for the target process
    Explicit { directory_table_base: u64 },
    /// Try to mitigate CR3 shenanigans and do not use the directory table base known to the system
    Cr3Shenanigans,
}

impl DirectoryTableType {
    /// The feature bits the peer must have advertised to translate addresses this way.
    pub open spec fn spec_required_feature(self) -> u64 {
        match self {
            DirectoryTableType::Default => 0,
            DirectoryTableType::Explicit { .. } => FEATURE_DTT_EXPLICIT,
            DirectoryTableType::Cr3Shenanigans => FEATURE_CR3_SHENANIGANS,
        }
    }

    /// The feature the peer must have advertised to translate addresses this way.
    pub fn required_feature(&self) -> (r: DriverFeature)
        ensures
            r.bits == self.spec_required_feature(),
    {
        match self {
            DirectoryTableType::Default => DriverFeature::empty(),
            DirectoryTableType::Explicit { .. } => DriverFeature::DttExplicit(),
            DirectoryTableType::Cr3Shenanigans => DriverFeature::CR3Sshenanigans(),
        }
    }
}

} // verus!
