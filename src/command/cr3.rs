use vstd::prelude::*;

verus! {

/// Installs the peer's countermeasure against a spoofed directory table base.
#[derive(Debug, Clone, Copy)]
pub struct DriverCommandCr3ShenanigansEnable {
    pub mitigation_strategy: u32,
    pub mitigation_flags: u32,
    /// Out: whether the countermeasure is in place. `false` is an outcome, not a protocol fault.
    pub success: bool,
}

impl Default for DriverCommandCr3ShenanigansEnable {
    fn default() -> (r: DriverCommandCr3ShenanigansEnable)
        ensures
            r.mitigation_strategy == 0,
            r.mitigation_flags == 0,
            !r.success,
    {
        DriverCommandCr3ShenanigansEnable { mitigation_strategy: 0, mitigation_flags: 0, success: false }
    }
}

/// Removes the countermeasure again; it carries nothing.
#[derive(Debug, Clone, Copy)]
pub struct DriverCommandCr3ShenanigansDisable {}

impl Default for DriverCommandCr3ShenanigansDisable {
    fn default() -> (r: DriverCommandCr3ShenanigansDisable) {
        DriverCommandCr3ShenanigansDisable {}
    }
}

} // verus!
