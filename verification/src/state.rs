//! The translator's session state: the panel fields it emulates and its
//! local mirror of the simulator's door telemetry.

use vstd::prelude::*;

verus! {

// Side-selector values, as bit encodings: bit 0 = left, bit 1 = right.
pub const SELECTOR_NONE: u8 = 0;

pub const SELECTOR_LEFT: u8 = 1;

pub const SELECTOR_RIGHT: u8 = 2;

pub const SELECTOR_BOTH: u8 = 3;

// Notch positions of the door-release toggle switch.
pub const NOTCH_RELEASE: i16 = 0;

pub const NOTCH_NEUTRAL: i16 = 1;

/// The translator's state, updated in place once per inbound message.
#[derive(Clone, Copy, Debug, PartialEq, Eq, Structural)]
pub struct State {
    /// The simulator's own side-selector position, mirrored from telemetry,
    /// never computed here. Bit 0 = left, bit 1 = right.
    pub side_selector_hardware: u8,
    /// Door open level: 0 = fully closed, > 0 = some degree of open;
    /// the maximum of the last reported left and right levels.
    pub door_status: u8,
    /// Notch of the door-release toggle switch
    /// (0 = release, 1 = neutral, 2 = lock).
    pub release_switch_notch: i16,
    /// The emulated panel's own side-selector cursor, driven by button
    /// presses; always one of left (1), right (2) or both (3).
    pub side_selector_panel: u8,
    /// True once the panel's side-selector has been explicitly set since the
    /// doors last fully closed; suppresses the automatic post-departure reset.
    pub manual_override_active: bool,
}

impl State {
    /// Well-formedness: the panel's selector cursor is left, right or both.
    pub open spec fn wf(self) -> bool {
        SELECTOR_LEFT <= self.side_selector_panel <= SELECTOR_BOTH
    }

    /// The documented defaults, used the first time a message is processed.
    pub open spec fn spec_initial() -> State {
        State {
            side_selector_hardware: SELECTOR_NONE,
            door_status: 0,
            release_switch_notch: NOTCH_NEUTRAL,
            side_selector_panel: SELECTOR_RIGHT,
            manual_override_active: false,
        }
    }

    /// The initial state.
    pub fn initial() -> (s: State)
        ensures
            s == State::spec_initial(),
            s.wf(),
    {
        State {
            side_selector_hardware: SELECTOR_NONE,
            door_status: 0,
            release_switch_notch: NOTCH_NEUTRAL,
            side_selector_panel: SELECTOR_RIGHT,
            manual_override_active: false,
        }
    }
}

} // verus!
