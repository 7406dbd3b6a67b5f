use vstd::prelude::*;

verus! {

/// Injects a sequence of keyboard states, held in a buffer the client owns, in order.
#[derive(Debug, Clone, Copy)]
pub struct DriverCommandInputKeyboard {
    /// Number of states in the buffer.
    pub state_count: usize,
}

impl Default for DriverCommandInputKeyboard {
    fn default() -> (r: DriverCommandInputKeyboard)
        ensures
            r.state_count == 0,
    {
        DriverCommandInputKeyboard { state_count: 0 }
    }
}

/// One key going down or up.
#[derive(Debug, Clone, Copy, PartialEq, Eq, Structural)]
pub struct KeyboardState {
    pub scane_code: u16,
    pub down: bool,
}

impl Default for KeyboardState {
    fn default() -> (r: KeyboardState)
        ensures
            r.scane_code == 0,
            !r.down,
    {
        KeyboardState { scane_code: 0, down: false }
    }
}

} // verus!
