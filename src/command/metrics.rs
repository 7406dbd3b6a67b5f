use vstd::prelude::*;

use crate::utils::{
    fixed_buffer_encoding, fixed_buffer_text, fixed_buffer_to_str, str_to_fixed_buffer, zeroed_buffer,
};
use vstd::string::StringSliceAdditionalSpecFns;

verus! {

/// Hands a report of the given type to the peer; the payload bytes stay in a buffer the client
/// owns.
#[derive(Debug, Clone, Copy)]
pub struct DriverCommandMetricsReportSend {
    /// The report's type as a C string, truncated to the buffer.
    pub report_type: [u8; 0x100],
    /// Number of payload bytes.
    pub report_payload_length: usize,
}

impl DriverCommandMetricsReportSend {
    /// The report's type, or `None` when its bytes are not well-formed UTF-8.
    pub fn get_report_type(&self) -> (r: Option<&str>)
        ensures
            match r {
                Some(t) => fixed_buffer_text(self.report_type@) == Some(t@),
                None => fixed_buffer_text(self.report_type@) is None,
            },
    {
        fixed_buffer_to_str(&self.report_type)
    }

    /// Stores `value` as the report's type; returns whether it fit.
    pub fn set_report_type(&mut self, value: &str) -> (fits: bool)
        ensures
            final(self).report_type@ == fixed_buffer_encoding(
                old(self).report_type@,
                value.spec_bytes(),
            ),
            final(self).report_payload_length == old(self).report_payload_length,
            fits == (value.spec_bytes().len() <= 0x100),
    {
        str_to_fixed_buffer(&mut self.report_type, value)
    }
}

impl Default for DriverCommandMetricsReportSend {
    fn default() -> (r: DriverCommandMetricsReportSend)
        ensures
            r.report_type@ == Seq::new(0x100, |i: int| 0u8),
            r.report_payload_length == 0,
    {
        let report_type = zeroed_buffer();
        DriverCommandMetricsReportSend { report_type, report_payload_length: 0 }
    }
}

} // verus!
