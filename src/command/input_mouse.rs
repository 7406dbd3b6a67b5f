use vstd::prelude::*;

verus! {

/// Injects a sequence of mouse states, held in a buffer the client owns, in order.
#[derive(Debug, Clone, Copy)]
pub struct DriverCommandInputMouse {
    /// Number of states in the buffer.
    pub state_count: usize,
}

impl Default for DriverCommandInputMouse {
    fn default() -> (r: DriverCommandInputMouse)
        ensures
            r.state_count == 0,
    {
        DriverCommandInputMouse { state_count: 0 }
    }
}

/// One mouse report: for each button `Some(true)` presses it, `Some(false)` releases it and
/// `None` leaves it as it is; then wheel movement and relative motion.
#[derive(Debug, Clone, Copy)]
pub struct MouseState {
    pub buttons: [Option<bool>; 0x05],
    pub hwheel: bool,
    pub wheel: bool,
    pub last_x: i32,
    pub last_y: i32,
}

/// Whether a button is held after a sequence of reports, given whether it was held before.
pub open spec fn button_held_after(held: bool, states: Seq<MouseState>, button: int) -> bool
    decreases states.len(),
{
    if states.len() == 0 {
        held
    } else {
        let last = states.last().buttons@[button];
        match last {
            Some(down) => down,
            None => button_held_after(held, states.drop_last(), button),
        }
    }
}

impl MouseState {
    /// The buttons held after this report, given those held before it.
    pub fn apply_buttons(&self, held: [bool; 0x05]) -> (r: [bool; 0x05])
        ensures
            forall|b: int|
                0 <= b < 0x05 ==> r@[b] == match self.buttons@[b] {
                    Some(down) => down,
                    None => held@[b],
                },
    {
        let mut r = held;
        let mut b: usize = 0;
        while b < 0x05
            invariant
                b <= 0x05,
                forall|j: int|
                    0 <= j < b ==> r@[j] == match self.buttons@[j] {
                        Some(down) => down,
                        None => held@[j],
                    },
                forall|j: int| b <= j < 0x05 ==> r@[j] == held@[j],
            decreases 0x05 - b,
        {
            match self.buttons[b] {
                Some(down) => {
                    r[b] = down;
                },
                None => {},
            }
            b += 1;
        }
        r
    }
}

/// The buttons held after the reports of `states`, applied in order, given those held before.
pub fn buttons_held_after(held: [bool; 0x05], states: &[MouseState]) -> (r: [bool; 0x05])
    ensures
        forall|b: int| 0 <= b < 0x05 ==> r@[b] == button_held_after(held@[b], states@, b),
{
    let mut r = held;
    let mut i: usize = 0;
    while i < states.len()
        invariant
            i <= states@.len(),
            forall|b: int|
                0 <= b < 0x05 ==> r@[b] == button_held_after(held@[b], states@.take(i as int), b),
        decreases states@.len() - i,
    {
        let next = states[i].apply_buttons(r);
        proof {
            assert forall|b: int| 0 <= b < 0x05 implies next@[b] == button_held_after(
                held@[b],
                states@.take(i + 1),
                b,
            ) by {
                assert(states@.take(i + 1).drop_last() =~= states@.take(i as int));
                assert(states@.take(i + 1).last() == states@[i as int]);
            }
        }
        r = next;
        i += 1;
    }
    assert(states@.take(states@.len() as int) =~= states@);
    r
}

} // verus!
