use vstd::prelude::*;

use crate::types::DriverFeature;
use crate::utils::{
    fixed_buffer_encoding, fixed_buffer_text, fixed_buffer_to_str, str_to_fixed_buffer, zeroed_buffer,
};
use vstd::string::StringSliceAdditionalSpecFns;

verus! {

/// A build's version and the name of the application it belongs to.
#[derive(Debug, Clone, Copy)]
pub struct VersionInfo {
    /// The application's name as a C string, truncated to the buffer.
    pub application_name: [u8; 0x20],
    pub version_major: u32,
    pub version_minor: u32,
    pub version_patch: u32,
}

impl VersionInfo {
    /// The application's name, or `None` when its bytes are not well-formed UTF-8.
    pub fn get_application_name(&self) -> (r: Option<&str>)
        ensures
            match r {
                Some(t) => fixed_buffer_text(self.application_name@) == Some(t@),
                None => fixed_buffer_text(self.application_name@) is None,
            },
    {
        fixed_buffer_to_str(&self.application_name)
    }

    /// Stores `value` as the application's name; returns whether it fit.
    pub fn set_application_name(&mut self, value: &str) -> (fits: bool)
        ensures
            final(self).application_name@ == fixed_buffer_encoding(
                old(self).application_name@,
                value.spec_bytes(),
            ),
            final(self).version_major == old(self).version_major,
            final(self).version_minor == old(self).version_minor,
            final(self).version_patch == old(self).version_patch,
            fits == (value.spec_bytes().len() <= 0x20),
    {
        str_to_fixed_buffer(&mut self.application_name, value)
    }
}

impl Default for VersionInfo {
    fn default() -> (r: VersionInfo)
        ensures
            r.application_name@ == Seq::new(0x20, |i: int| 0u8),
            r.version_major == 0,
            r.version_minor == 0,
            r.version_patch == 0,
    {
        let application_name = zeroed_buffer();
        VersionInfo { application_name, version_major: 0, version_minor: 0, version_patch: 0 }
    }
}

/// The first command of every session. Its layout never changes, so that any two builds can at
/// least learn each other's protocol version.
#[derive(Debug, Clone, Copy)]
pub struct DriverCommandInitialize {
    /* The order of the first few fields should be consistent accross versions. */
    // In:
    pub client_protocol_version: u32,
    // Out:
    pub driver_protocol_version: u32,
    /* These fields are only valid to access if the client and driver protocol version are equal */
    // Out:
    pub result: InitializeResult,
    // In:
    pub client_version: VersionInfo,
    // Out:
    pub driver_version: VersionInfo,
    // Out:
    pub driver_features: DriverFeature,
}

impl Default for DriverCommandInitialize {
    fn default() -> (r: DriverCommandInitialize)
        ensures
            r.client_protocol_version == 0,
            r.driver_protocol_version == 0,
            r.result == InitializeResult::Unavailable,
            r.client_version.application_name@ == Seq::new(0x20, |i: int| 0u8),
            r.client_version.version_major == 0,
            r.client_version.version_minor == 0,
            r.client_version.version_patch == 0,
            r.driver_version.application_name@ == Seq::new(0x20, |i: int| 0u8),
            r.driver_version.version_major == 0,
            r.driver_version.version_minor == 0,
            r.driver_version.version_patch == 0,
            r.driver_features.bits == 0,
    {
        DriverCommandInitialize {
            client_protocol_version: 0,
            driver_protocol_version: 0,
            result: InitializeResult::default(),
            client_version: VersionInfo::default(),
            driver_version: VersionInfo::default(),
            driver_features: DriverFeature::empty(),
        }
    }
}

#[derive(Debug, Clone, Copy, PartialEq, Eq, Structural)]
pub enum InitializeResult {
    Success,
    /// The driver is not available.
    /// E.g. the kernel component has not been mapped.
    Unavailable,
}

impl Default for InitializeResult {
    fn default() -> (r: InitializeResult)
        ensures
            r == InitializeResult::Unavailable,
    {
        InitializeResult::Unavailable
    }
}

} // verus!
