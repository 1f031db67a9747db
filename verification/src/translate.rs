//! The translator core: a pure transition function from the previous session
//! state and one inbound message to the new state and the batch of synthetic
//! commands to send back.
//!
//! Per message, the inbound data is applied first (telemetry records, then
//! keypress and named-switch events, child by child in order), and the
//! reactive outputs are evaluated once afterwards, each conditioned on its
//! driving field having changed against the previous cycle's state.

use vstd::prelude::*;
use crate::commands::Command;
use crate::commands::ASSIGN_DOORS_EXTERNAL;
use crate::commands::ASSIGN_DOORS_INTERNAL;
use crate::commands::ATTR_KEY_ASSIGNMENT;
use crate::commands::ATTR_KEY_COMMAND;
use crate::commands::CMD_DOORS_CLOSE_DOWN;
use crate::commands::CMD_DOORS_LEFT_DOWN;
use crate::commands::CMD_DOORS_RIGHT_DOWN;
use crate::commands::CMD_RELEASE_TOGGLE_DOWN;
use crate::commands::LAMP_DOOR_1_OPEN;
use crate::commands::LAMP_DOOR_2_OPEN;
use crate::commands::LAMP_DOOR_3_OPEN;
use crate::commands::LAMP_DOOR_4_OPEN;
use crate::commands::LAMP_GREEN_LOOP;
use crate::commands::LAMP_PRAM;
use crate::commands::LAMP_SELECT_BOTH;
use crate::commands::LAMP_SELECT_LEFT;
use crate::commands::LAMP_SELECT_RIGHT;
use crate::commands::make_input_batch;
use crate::commands::node_renders_command;
use crate::commands::render_commands;
use crate::commands::MSG_CLIENT_APPLICATION;
use crate::commands::NODE_INPUT_COMMAND;
use crate::commands::SWITCH_AUTO_ALL_CLOSE;
use crate::commands::SWITCH_DOOR_RELEASE;
use crate::msg::spec_attr_bytes;
use crate::msg::spec_attr_i16;
use crate::msg::spec_attr_u16;
use crate::msg::spec_attr_u32_bits;
use crate::msg::spec_attr_u8;
use crate::msg::Node;
use crate::state::State;
use crate::state::NOTCH_NEUTRAL;
use crate::state::NOTCH_RELEASE;
use crate::state::SELECTOR_BOTH;
use crate::state::SELECTOR_LEFT;
use crate::state::SELECTOR_RIGHT;
use crate::switch_names::spec_switch_name;
use crate::switch_names::switch_name_of;
use crate::switch_names::SwitchName;

verus! {

// Child ids of the application-level telemetry/event container.
/// Telemetry: vehicle physical and door status data.
pub const NODE_DATA_FTD: u16 = 0x0A;

/// Operation events: keypresses and switch movements.
pub const NODE_DATA_OPERATION: u16 = 0x0B;

// Telemetry fields and their attribute ids.
pub const FTD_SPEED: u16 = 0x01;

pub const FTD_DOOR_STATUS: u16 = 0x66;

pub const ATTR_DOOR_LEFT: u16 = 0x02;

pub const ATTR_DOOR_RIGHT: u16 = 0x03;

pub const ATTR_DOOR_SELECTOR: u16 = 0x05;

// Operation event child ids and their attribute ids.
pub const NODE_KEY_EVENT: u16 = 0x01;

pub const NODE_SWITCH_EVENT: u16 = 0x02;

pub const ATTR_SWITCH_NAME: u16 = 0x01;

pub const ATTR_SWITCH_NOTCH: u16 = 0x03;

/// The IEEE 754 single-precision bit pattern of the post-departure speed
/// threshold: 5 km/h in metres per second, i.e. the 32-bit float quotient
/// 5.0 / 3.6.
pub const SPEED_THRESHOLD_BITS: u32 = 0x3FB1C71D;

/// The IEEE 754 single-precision bit pattern of positive infinity.
pub const F32_POSITIVE_INFINITY_BITS: u32 = 0x7F800000;

/// Whether the speed whose little-endian float encoding is `bits` exceeds
/// the threshold. Positive non-NaN 32-bit floats are ordered exactly like
/// their bit patterns, so "decoded value > threshold" is one unsigned
/// comparison once negative values (sign bit set, never above a positive
/// threshold) and NaN (patterns above positive infinity, never comparable)
/// are ruled out.
pub open spec fn spec_speed_above_threshold(bits: u32) -> bool {
    SPEED_THRESHOLD_BITS < bits && bits <= F32_POSITIVE_INFINITY_BITS
}

/// Whether the speed encoded by `bits` exceeds the threshold.
pub fn speed_above_threshold(bits: u32) -> (r: bool)
    ensures
        r == spec_speed_above_threshold(bits),
{
    SPEED_THRESHOLD_BITS < bits && bits <= F32_POSITIVE_INFINITY_BITS
}

/// One step of the panel's side-selector cursor on a left press:
/// right goes to left, left goes to both, both goes to right.
/// Values outside the three selector positions are left unchanged.
pub open spec fn spec_rotate_toward_left(v: u8) -> u8 {
    if v == SELECTOR_LEFT {
        SELECTOR_BOTH
    } else if v == SELECTOR_RIGHT {
        SELECTOR_LEFT
    } else if v == SELECTOR_BOTH {
        SELECTOR_RIGHT
    } else {
        v
    }
}

/// One step of the panel's side-selector cursor on a right press:
/// left goes to right, right goes to both, both goes to left.
/// Values outside the three selector positions are left unchanged.
pub open spec fn spec_rotate_toward_right(v: u8) -> u8 {
    if v == SELECTOR_LEFT {
        SELECTOR_RIGHT
    } else if v == SELECTOR_RIGHT {
        SELECTOR_BOTH
    } else if v == SELECTOR_BOTH {
        SELECTOR_LEFT
    } else {
        v
    }
}

/// Step the side-selector cursor toward the left.
pub fn rotate_toward_left(v: u8) -> (r: u8)
    ensures
        r == spec_rotate_toward_left(v),
{
    if v == SELECTOR_LEFT {
        SELECTOR_BOTH
    } else if v == SELECTOR_RIGHT {
        SELECTOR_LEFT
    } else if v == SELECTOR_BOTH {
        SELECTOR_RIGHT
    } else {
        v
    }
}

/// Step the side-selector cursor toward the right.
pub fn rotate_toward_right(v: u8) -> (r: u8)
    ensures
        r == spec_rotate_toward_right(v),
{
    if v == SELECTOR_LEFT {
        SELECTOR_RIGHT
    } else if v == SELECTOR_RIGHT {
        SELECTOR_BOTH
    } else if v == SELECTOR_BOTH {
        SELECTOR_LEFT
    } else {
        v
    }
}

/// Effect of one door-status telemetry record: when both the left and the
/// right open-level decode, the door status becomes their maximum; when the
/// simulator's own side-selector position decodes, it is mirrored as is.
pub open spec fn spec_apply_door_record(s: State, c: Node) -> State {
    if c.id == FTD_DOOR_STATUS {
        let s1 = match (spec_attr_u8(c, ATTR_DOOR_LEFT), spec_attr_u8(c, ATTR_DOOR_RIGHT)) {
            (Some(l), Some(r)) => State { door_status: if l >= r { l } else { r }, ..s },
            _ => s,
        };
        match spec_attr_u8(c, ATTR_DOOR_SELECTOR) {
            Some(h) => State { side_selector_hardware: h, ..s1 },
            None => s1,
        }
    } else {
        s
    }
}

/// Door-status records of a telemetry node, applied in order.
pub open spec fn spec_fold_door_records(s: State, cs: Seq<Node>) -> State
    decreases cs.len(),
{
    if cs.len() == 0 {
        s
    } else {
        spec_fold_door_records(spec_apply_door_record(s, cs.first()), cs.drop_first())
    }
}

/// Effect of the speed field: above the threshold, and only while no manual
/// override is active, the panel's cursor is reset to right and the override
/// is latched; it unlatches only when the doors next fully close.
pub open spec fn spec_apply_speed(s: State, c2: Node) -> State {
    match spec_attr_u32_bits(c2, FTD_SPEED) {
        Some(bits) => if spec_speed_above_threshold(bits) && !s.manual_override_active {
            State {
                manual_override_active: true,
                side_selector_panel: SELECTOR_RIGHT,
                ..s
            }
        } else {
            s
        },
        None => s,
    }
}

/// Effect of one telemetry child: its door-status records in order, then
/// the speed field. Telemetry produces no direct output.
pub open spec fn spec_apply_telemetry(s: State, c2: Node) -> State {
    spec_apply_speed(spec_fold_door_records(s, c2.children@), c2)
}

/// Effect of one keypress event.
///
/// On the internal channel (driven only by the translator itself), a "down"
/// of one of the three door commands is answered with the matching "up"
/// (id + 1). On the external channel, the native door keys are reinterpreted:
/// the release toggle key flips the release switch between notch 0 and 1,
/// the left and right keys rotate the panel's cursor, and the close key
/// presses and releases the auto/all-close switch.
pub open spec fn spec_apply_key_event(s: State, c3: Node) -> (State, Seq<Command>) {
    match (spec_attr_u16(c3, ATTR_KEY_ASSIGNMENT), spec_attr_u16(c3, ATTR_KEY_COMMAND)) {
        (Some(assignment), Some(command)) => if assignment == ASSIGN_DOORS_INTERNAL {
            if command == CMD_DOORS_LEFT_DOWN || command == CMD_DOORS_RIGHT_DOWN || command
                == CMD_DOORS_CLOSE_DOWN {
                (
                    s,
                    seq![
                        Command::KeyPress {
                            assignment: ASSIGN_DOORS_INTERNAL,
                            command: (command + 1) as u16,
                        }
                    ],
                )
            } else {
                (s, Seq::<Command>::empty())
            }
        } else if assignment == ASSIGN_DOORS_EXTERNAL {
            if command == CMD_RELEASE_TOGGLE_DOWN {
                (
                    s,
                    seq![
                        Command::SwitchNotch {
                            assignment: SWITCH_DOOR_RELEASE,
                            position: if s.release_switch_notch == NOTCH_RELEASE {
                                1
                            } else {
                                0
                            },
                        }
                    ],
                )
            } else if command == CMD_DOORS_LEFT_DOWN {
                (
                    State {
                        side_selector_panel: spec_rotate_toward_left(s.side_selector_panel),
                        ..s
                    },
                    Seq::<Command>::empty(),
                )
            } else if command == CMD_DOORS_RIGHT_DOWN {
                (
                    State {
                        side_selector_panel: spec_rotate_toward_right(s.side_selector_panel),
                        ..s
                    },
                    Seq::<Command>::empty(),
                )
            } else if command == CMD_DOORS_CLOSE_DOWN {
                (
                    s,
                    seq![
                        Command::SwitchNotch { assignment: SWITCH_AUTO_ALL_CLOSE, position: 0 }
                    ],
                )
            } else if command == CMD_DOORS_CLOSE_DOWN + 1 {
                (
                    s,
                    seq![
                        Command::SwitchNotch { assignment: SWITCH_AUTO_ALL_CLOSE, position: 1 }
                    ],
                )
            } else {
                (s, Seq::<Command>::empty())
            }
        } else {
            (s, Seq::<Command>::empty())
        },
        _ => (s, Seq::<Command>::empty()),
    }
}

/// Effect of one named-switch notch-change event, dispatched by name:
/// door-release stores the notch; auto/all-close at notch 0 synthesizes an
/// internal close "down"; a side-preselect switch latches the manual
/// override and, when engaged (notch 1), sets the panel's cursor.
/// Unrecognized names are ignored.
pub open spec fn spec_apply_switch_event(s: State, c3: Node) -> (State, Seq<Command>) {
    match (spec_attr_bytes(c3, ATTR_SWITCH_NAME), spec_attr_i16(c3, ATTR_SWITCH_NOTCH)) {
        (Some(name), Some(notch)) => match spec_switch_name(name) {
            SwitchName::DoorRelease => (
                State { release_switch_notch: notch, ..s },
                Seq::<Command>::empty(),
            ),
            SwitchName::AutoAllClose => if notch == 0 {
                (
                    s,
                    seq![
                        Command::KeyPress {
                            assignment: ASSIGN_DOORS_INTERNAL,
                            command: CMD_DOORS_CLOSE_DOWN,
                        }
                    ],
                )
            } else {
                (s, Seq::<Command>::empty())
            },
            SwitchName::PreselectLeft => (
                State {
                    manual_override_active: true,
                    side_selector_panel: if notch == 1 {
                        SELECTOR_LEFT
                    } else {
                        s.side_selector_panel
                    },
                    ..s
                },
                Seq::<Command>::empty(),
            ),
            SwitchName::PreselectRight => (
                State {
                    manual_override_active: true,
                    side_selector_panel: if notch == 1 {
                        SELECTOR_RIGHT
                    } else {
                        s.side_selector_panel
                    },
                    ..s
                },
                Seq::<Command>::empty(),
            ),
            SwitchName::PreselectBoth => (
                State {
                    manual_override_active: true,
                    side_selector_panel: if notch == 1 {
                        SELECTOR_BOTH
                    } else {
                        s.side_selector_panel
                    },
                    ..s
                },
                Seq::<Command>::empty(),
            ),
            SwitchName::Unknown => (s, Seq::<Command>::empty()),
        },
        _ => (s, Seq::<Command>::empty()),
    }
}

/// Effect of one operation-event child, dispatched by child id.
pub open spec fn spec_apply_event_child(s: State, c3: Node) -> (State, Seq<Command>) {
    if c3.id == NODE_KEY_EVENT {
        spec_apply_key_event(s, c3)
    } else if c3.id == NODE_SWITCH_EVENT {
        spec_apply_switch_event(s, c3)
    } else {
        (s, Seq::<Command>::empty())
    }
}

/// Operation-event children applied in order, outputs concatenated in order.
pub open spec fn spec_fold_event_children(s: State, cs: Seq<Node>) -> (State, Seq<Command>)
    decreases cs.len(),
{
    if cs.len() == 0 {
        (s, Seq::<Command>::empty())
    } else {
        let (s1, o1) = spec_apply_event_child(s, cs.first());
        let (s2, o2) = spec_fold_event_children(s1, cs.drop_first());
        (s2, o1 + o2)
    }
}

/// Effect of one child of the telemetry/event container.
pub open spec fn spec_apply_child(s: State, c2: Node) -> (State, Seq<Command>) {
    if c2.id == NODE_DATA_FTD {
        (spec_apply_telemetry(s, c2), Seq::<Command>::empty())
    } else if c2.id == NODE_DATA_OPERATION {
        spec_fold_event_children(s, c2.children@)
    } else {
        (s, Seq::<Command>::empty())
    }
}

/// Children of the telemetry/event container applied in order.
pub open spec fn spec_fold_children(s: State, cs: Seq<Node>) -> (State, Seq<Command>)
    decreases cs.len(),
{
    if cs.len() == 0 {
        (s, Seq::<Command>::empty())
    } else {
        let (s1, o1) = spec_apply_child(s, cs.first());
        let (s2, o2) = spec_fold_children(s1, cs.drop_first());
        (s2, o1 + o2)
    }
}

/// The input phase: a message is interpreted only when it is the
/// application-level telemetry/event container; anything else is ignored.
pub open spec fn spec_apply_inputs(s: State, m: Node) -> (State, Seq<Command>) {
    if m.id == MSG_CLIENT_APPLICATION {
        spec_fold_children(s, m.children@)
    } else {
        (s, Seq::<Command>::empty())
    }
}

/// Whether the door status differs from the previous cycle's
/// (on the very first cycle everything counts as changed).
pub open spec fn spec_door_changed(prev: Option<State>, s: State) -> bool {
    match prev {
        None => true,
        Some(p) => p.door_status != s.door_status,
    }
}

/// Whether the panel's side-selector cursor differs from the previous cycle's.
pub open spec fn spec_panel_changed(prev: Option<State>, s: State) -> bool {
    match prev {
        None => true,
        Some(p) => p.side_selector_panel != s.side_selector_panel,
    }
}

/// Whether the release-switch notch differs from the previous cycle's.
pub open spec fn spec_release_changed(prev: Option<State>, s: State) -> bool {
    match prev {
        None => true,
        Some(p) => p.release_switch_notch != s.release_switch_notch,
    }
}

/// The lamp commands driven by the door status: the four door-open lamps and
/// the pram lamp are lit exactly while some door is open, the green-loop
/// lamp exactly while all doors are closed.
pub open spec fn spec_door_lamp_commands(door_status: u8) -> Seq<Command> {
    let on: u16 = if door_status == 0 {
        0
    } else {
        1
    };
    let green: u16 = if door_status == 0 {
        1
    } else {
        0
    };
    seq![
        Command::SwitchNotch { assignment: LAMP_DOOR_1_OPEN, position: on },
        Command::SwitchNotch { assignment: LAMP_DOOR_2_OPEN, position: on },
        Command::SwitchNotch { assignment: LAMP_DOOR_3_OPEN, position: on },
        Command::SwitchNotch { assignment: LAMP_DOOR_4_OPEN, position: on },
        Command::SwitchNotch { assignment: LAMP_PRAM, position: on },
        Command::SwitchNotch { assignment: LAMP_GREEN_LOOP, position: green },
    ]
}

/// The three mutually exclusive side-selector indicator lamps: each is lit
/// exactly where the panel's cursor equals its value.
pub open spec fn spec_selector_lamp_commands(panel: u8) -> Seq<Command> {
    seq![
        Command::SwitchNotch {
            assignment: LAMP_SELECT_LEFT,
            position: if panel == SELECTOR_LEFT {
                1
            } else {
                0
            },
        },
        Command::SwitchNotch {
            assignment: LAMP_SELECT_RIGHT,
            position: if panel == SELECTOR_RIGHT {
                1
            } else {
                0
            },
        },
        Command::SwitchNotch {
            assignment: LAMP_SELECT_BOTH,
            position: if panel == SELECTOR_BOTH {
                1
            } else {
                0
            },
        },
    ]
}

/// The selector position the simulator's hardware should be in: neutral (0)
/// while the release switch rests in its neutral notch, otherwise the
/// panel's own cursor.
pub open spec fn spec_desired_hardware(s: State) -> u8 {
    if s.release_switch_notch == NOTCH_NEUTRAL {
        0
    } else {
        s.side_selector_panel
    }
}

/// The reconciliation commands: the simulator's side selector cannot be set
/// to an absolute notch, so for each side bit on which it differs from the
/// desired position one internal "down" keypress is synthesized. The
/// matching "up" is supplied later by the internal-channel echo once the
/// simulator reports the press.
pub open spec fn spec_reconcile_commands(s: State) -> Seq<Command> {
    let desired = spec_desired_hardware(s);
    let left: Seq<Command> = if (s.side_selector_hardware & 1) != (desired & 1) {
        seq![
            Command::KeyPress {
                assignment: ASSIGN_DOORS_INTERNAL,
                command: CMD_DOORS_LEFT_DOWN,
            }
        ]
    } else {
        Seq::<Command>::empty()
    };
    let right: Seq<Command> = if (s.side_selector_hardware & 2) != (desired & 2) {
        seq![
            Command::KeyPress {
                assignment: ASSIGN_DOORS_INTERNAL,
                command: CMD_DOORS_RIGHT_DOWN,
            }
        ]
    } else {
        Seq::<Command>::empty()
    };
    left + right
}

/// The reactive phase, evaluated once per message after all inputs are
/// applied: lamp updates for a changed door status (clearing the manual
/// override when the doors have just fully closed), lamp updates for a
/// changed cursor, and hardware reconciliation when the release notch or
/// the cursor changed.
pub open spec fn spec_apply_reactive(prev: Option<State>, s: State) -> (State, Seq<Command>) {
    let door_out = if spec_door_changed(prev, s) {
        spec_door_lamp_commands(s.door_status)
    } else {
        Seq::<Command>::empty()
    };
    let s1 = if spec_door_changed(prev, s) && s.door_status == 0 {
        State { manual_override_active: false, ..s }
    } else {
        s
    };
    let selector_out = if spec_panel_changed(prev, s) {
        spec_selector_lamp_commands(s.side_selector_panel)
    } else {
        Seq::<Command>::empty()
    };
    let reconcile_out = if spec_release_changed(prev, s) || spec_panel_changed(prev, s) {
        spec_reconcile_commands(s)
    } else {
        Seq::<Command>::empty()
    };
    (s1, door_out + selector_out + reconcile_out)
}

/// The whole transition: on the first cycle the state starts from the
/// documented defaults; the message's inputs are applied, then the reactive
/// outputs, and the commands of both phases are sent in that order.
pub open spec fn spec_process(prev: Option<State>, m: Node) -> (State, Seq<Command>) {
    let s0 = match prev {
        None => State::spec_initial(),
        Some(s) => s,
    };
    let (s1, o1) = spec_apply_inputs(s0, m);
    let (s2, o2) = spec_apply_reactive(prev, s1);
    (s2, o1 + o2)
}

/// Push one command, stated as appending a singleton batch.
fn push_command(out: &mut Vec<Command>, c: Command)
    ensures
        final(out)@ == old(out)@ + seq![c],
{
    out.push(c);
    assert(out@ =~= old(out)@ + seq![c]);
}

/// Apply one door-status telemetry record.
pub fn apply_door_record(s: State, c: &Node) -> (s2: State)
    ensures
        s2 == spec_apply_door_record(s, *c),
{
    if c.id == FTD_DOOR_STATUS {
        let mut cur = s;
        match (c.attr_u8(ATTR_DOOR_LEFT), c.attr_u8(ATTR_DOOR_RIGHT)) {
            (Some(l), Some(r)) => {
                cur.door_status = if l >= r {
                    l
                } else {
                    r
                };
            },
            _ => {},
        }
        match c.attr_u8(ATTR_DOOR_SELECTOR) {
            Some(h) => {
                cur.side_selector_hardware = h;
            },
            None => {},
        }
        cur
    } else {
        s
    }
}

/// Apply one telemetry child: door-status records in order, then the speed
/// field.
pub fn apply_telemetry(s: State, c2: &Node) -> (s2: State)
    ensures
        s2 == spec_apply_telemetry(s, *c2),
{
    let mut cur = s;
    let n = c2.children.len();
    let mut i: usize = 0;
    assert(c2.children@.skip(0) =~= c2.children@);
    while i < n
        invariant
            i <= n,
            n == c2.children@.len(),
            spec_fold_door_records(s, c2.children@) == spec_fold_door_records(
                cur,
                c2.children@.skip(i as int),
            ),
        decreases n - i,
    {
        assert(c2.children@.skip(i as int).first() == c2.children@[i as int]);
        assert(c2.children@.skip(i as int).drop_first() =~= c2.children@.skip(i as int + 1));
        cur = apply_door_record(cur, &c2.children[i]);
        i = i + 1;
    }
    assert(c2.children@.skip(n as int) =~= Seq::<Node>::empty());
    match c2.attr_u32_bits(FTD_SPEED) {
        Some(bits) => {
            if speed_above_threshold(bits) && !cur.manual_override_active {
                cur.manual_override_active = true;
                cur.side_selector_panel = SELECTOR_RIGHT;
            }
        },
        None => {},
    }
    cur
}

/// Apply one keypress event.
pub fn apply_key_event(s: State, c3: &Node, out: &mut Vec<Command>) -> (s2: State)
    ensures
        s2 == spec_apply_key_event(s, *c3).0,
        final(out)@ == old(out)@ + spec_apply_key_event(s, *c3).1,
{
    proof {
        assert(old(out)@ + Seq::<Command>::empty() =~= old(out)@);
    }
    match (c3.attr_u16(ATTR_KEY_ASSIGNMENT), c3.attr_u16(ATTR_KEY_COMMAND)) {
        (Some(assignment), Some(command)) => {
            if assignment == ASSIGN_DOORS_INTERNAL {
                if command == CMD_DOORS_LEFT_DOWN || command == CMD_DOORS_RIGHT_DOWN || command
                    == CMD_DOORS_CLOSE_DOWN {
                    push_command(
                        out,
                        Command::KeyPress {
                            assignment: ASSIGN_DOORS_INTERNAL,
                            command: command + 1,
                        },
                    );
                }
                s
            } else if assignment == ASSIGN_DOORS_EXTERNAL {
                if command == CMD_RELEASE_TOGGLE_DOWN {
                    push_command(
                        out,
                        Command::SwitchNotch {
                            assignment: SWITCH_DOOR_RELEASE,
                            position: if s.release_switch_notch == NOTCH_RELEASE {
                                1
                            } else {
                                0
                            },
                        },
                    );
                    s
                } else if command == CMD_DOORS_LEFT_DOWN {
                    let mut cur = s;
                    cur.side_selector_panel = rotate_toward_left(s.side_selector_panel);
                    cur
                } else if command == CMD_DOORS_RIGHT_DOWN {
                    let mut cur = s;
                    cur.side_selector_panel = rotate_toward_right(s.side_selector_panel);
                    cur
                } else if command == CMD_DOORS_CLOSE_DOWN {
                    push_command(
                        out,
                        Command::SwitchNotch { assignment: SWITCH_AUTO_ALL_CLOSE, position: 0 },
                    );
                    s
                } else if command == CMD_DOORS_CLOSE_DOWN + 1 {
                    push_command(
                        out,
                        Command::SwitchNotch { assignment: SWITCH_AUTO_ALL_CLOSE, position: 1 },
                    );
                    s
                } else {
                    s
                }
            } else {
                s
            }
        },
        _ => s,
    }
}

/// Apply one named-switch notch-change event.
pub fn apply_switch_event(s: State, c3: &Node, out: &mut Vec<Command>) -> (s2: State)
    ensures
        s2 == spec_apply_switch_event(s, *c3).0,
        final(out)@ == old(out)@ + spec_apply_switch_event(s, *c3).1,
{
    proof {
        assert(old(out)@ + Seq::<Command>::empty() =~= old(out)@);
    }
    match (c3.attr_value(ATTR_SWITCH_NAME), c3.attr_i16(ATTR_SWITCH_NOTCH)) {
        (Some(name), Some(notch)) => {
            match switch_name_of(name) {
                SwitchName::DoorRelease => {
                    let mut cur = s;
                    cur.release_switch_notch = notch;
                    cur
                },
                SwitchName::AutoAllClose => {
                    if notch == 0 {
                        push_command(
                            out,
                            Command::KeyPress {
                                assignment: ASSIGN_DOORS_INTERNAL,
                                command: CMD_DOORS_CLOSE_DOWN,
                            },
                        );
                    }
                    s
                },
                SwitchName::PreselectLeft => {
                    let mut cur = s;
                    cur.manual_override_active = true;
                    if notch == 1 {
                        cur.side_selector_panel = SELECTOR_LEFT;
                    }
                    cur
                },
                SwitchName::PreselectRight => {
                    let mut cur = s;
                    cur.manual_override_active = true;
                    if notch == 1 {
                        cur.side_selector_panel = SELECTOR_RIGHT;
                    }
                    cur
                },
                SwitchName::PreselectBoth => {
                    let mut cur = s;
                    cur.manual_override_active = true;
                    if notch == 1 {
                        cur.side_selector_panel = SELECTOR_BOTH;
                    }
                    cur
                },
                SwitchName::Unknown => s,
            }
        },
        _ => s,
    }
}

/// Apply one operation-event child.
pub fn apply_event_child(s: State, c3: &Node, out: &mut Vec<Command>) -> (s2: State)
    ensures
        s2 == spec_apply_event_child(s, *c3).0,
        final(out)@ == old(out)@ + spec_apply_event_child(s, *c3).1,
{
    proof {
        assert(old(out)@ + Seq::<Command>::empty() =~= old(out)@);
    }
    if c3.id == NODE_KEY_EVENT {
        apply_key_event(s, c3, out)
    } else if c3.id == NODE_SWITCH_EVENT {
        apply_switch_event(s, c3, out)
    } else {
        s
    }
}

/// Apply one child of the telemetry/event container.
pub fn apply_child(s: State, c2: &Node, out: &mut Vec<Command>) -> (s2: State)
    ensures
        s2 == spec_apply_child(s, *c2).0,
        final(out)@ == old(out)@ + spec_apply_child(s, *c2).1,
{
    proof {
        assert(old(out)@ + Seq::<Command>::empty() =~= old(out)@);
    }
    if c2.id == NODE_DATA_FTD {
        apply_telemetry(s, c2)
    } else if c2.id == NODE_DATA_OPERATION {
        let ghost out0 = out@;
        let mut cur = s;
        let n = c2.children.len();
        let mut i: usize = 0;
        assert(c2.children@.skip(0) =~= c2.children@);
        assert(out@ =~= out0 + Seq::<Command>::empty());
        while i < n
            invariant
                i <= n,
                n == c2.children@.len(),
                spec_fold_event_children(s, c2.children@).0 == spec_fold_event_children(
                    cur,
                    c2.children@.skip(i as int),
                ).0,
                out0 + spec_fold_event_children(s, c2.children@).1 == out@
                    + spec_fold_event_children(cur, c2.children@.skip(i as int)).1,
            decreases n - i,
        {
            assert(c2.children@.skip(i as int).first() == c2.children@[i as int]);
            assert(c2.children@.skip(i as int).drop_first() =~= c2.children@.skip(i as int + 1));
            let ghost out_before = out@;
            let ghost o1 = spec_apply_event_child(cur, c2.children@[i as int]).1;
            let ghost rest = spec_fold_event_children(
                spec_apply_event_child(cur, c2.children@[i as int]).0,
                c2.children@.skip(i as int + 1),
            ).1;
            cur = apply_event_child(cur, &c2.children[i], out);
            proof {
                assert((out_before + o1) + rest =~= out_before + (o1 + rest));
            }
            i = i + 1;
        }
        assert(c2.children@.skip(n as int) =~= Seq::<Node>::empty());
        assert(out@ + Seq::<Command>::empty() =~= out@);
        cur
    } else {
        s
    }
}

/// The input phase: apply every child of the telemetry/event container in
/// order; other messages are ignored.
pub fn apply_inputs(s: State, m: &Node, out: &mut Vec<Command>) -> (s2: State)
    ensures
        s2 == spec_apply_inputs(s, *m).0,
        final(out)@ == old(out)@ + spec_apply_inputs(s, *m).1,
{
    proof {
        assert(old(out)@ + Seq::<Command>::empty() =~= old(out)@);
    }
    if m.id == MSG_CLIENT_APPLICATION {
        let ghost out0 = out@;
        let mut cur = s;
        let n = m.children.len();
        let mut i: usize = 0;
        assert(m.children@.skip(0) =~= m.children@);
        assert(out@ =~= out0 + Seq::<Command>::empty());
        while i < n
            invariant
                i <= n,
                n == m.children@.len(),
                spec_fold_children(s, m.children@).0 == spec_fold_children(
                    cur,
                    m.children@.skip(i as int),
                ).0,
                out0 + spec_fold_children(s, m.children@).1 == out@ + spec_fold_children(
                    cur,
                    m.children@.skip(i as int),
                ).1,
            decreases n - i,
        {
            assert(m.children@.skip(i as int).first() == m.children@[i as int]);
            assert(m.children@.skip(i as int).drop_first() =~= m.children@.skip(i as int + 1));
            let ghost out_before = out@;
            let ghost o1 = spec_apply_child(cur, m.children@[i as int]).1;
            let ghost rest = spec_fold_children(
                spec_apply_child(cur, m.children@[i as int]).0,
                m.children@.skip(i as int + 1),
            ).1;
            cur = apply_child(cur, &m.children[i], out);
            proof {
                assert((out_before + o1) + rest =~= out_before + (o1 + rest));
            }
            i = i + 1;
        }
        assert(m.children@.skip(n as int) =~= Seq::<Node>::empty());
        assert(out@ + Seq::<Command>::empty() =~= out@);
        cur
    } else {
        s
    }
}

/// The reactive phase.
pub fn apply_reactive(prev: Option<State>, s: State, out: &mut Vec<Command>) -> (s2: State)
    ensures
        s2 == spec_apply_reactive(prev, s).0,
        final(out)@ == old(out)@ + spec_apply_reactive(prev, s).1,
{
    let ghost out0 = out@;
    let ghost door_out = if spec_door_changed(prev, s) {
        spec_door_lamp_commands(s.door_status)
    } else {
        Seq::<Command>::empty()
    };
    let ghost selector_out = if spec_panel_changed(prev, s) {
        spec_selector_lamp_commands(s.side_selector_panel)
    } else {
        Seq::<Command>::empty()
    };
    let ghost reconcile_out = if spec_release_changed(prev, s) || spec_panel_changed(prev, s) {
        spec_reconcile_commands(s)
    } else {
        Seq::<Command>::empty()
    };
    let door_changed = match prev {
        None => true,
        Some(p) => p.door_status != s.door_status,
    };
    let panel_changed = match prev {
        None => true,
        Some(p) => p.side_selector_panel != s.side_selector_panel,
    };
    let release_changed = match prev {
        None => true,
        Some(p) => p.release_switch_notch != s.release_switch_notch,
    };
    let mut cur = s;
    if door_changed {
        let on: u16 = if s.door_status == 0 {
            0
        } else {
            1
        };
        let green: u16 = if s.door_status == 0 {
            1
        } else {
            0
        };
        out.push(Command::SwitchNotch { assignment: LAMP_DOOR_1_OPEN, position: on });
        out.push(Command::SwitchNotch { assignment: LAMP_DOOR_2_OPEN, position: on });
        out.push(Command::SwitchNotch { assignment: LAMP_DOOR_3_OPEN, position: on });
        out.push(Command::SwitchNotch { assignment: LAMP_DOOR_4_OPEN, position: on });
        out.push(Command::SwitchNotch { assignment: LAMP_PRAM, position: on });
        out.push(Command::SwitchNotch { assignment: LAMP_GREEN_LOOP, position: green });
        if s.door_status == 0 {
            cur.manual_override_active = false;
        }
    }
    assert(out@ =~= out0 + door_out);
    if panel_changed {
        let p = s.side_selector_panel;
        out.push(
            Command::SwitchNotch {
                assignment: LAMP_SELECT_LEFT,
                position: if p == SELECTOR_LEFT {
                    1
                } else {
                    0
                },
            },
        );
        out.push(
            Command::SwitchNotch {
                assignment: LAMP_SELECT_RIGHT,
                position: if p == SELECTOR_RIGHT {
                    1
                } else {
                    0
                },
            },
        );
        out.push(
            Command::SwitchNotch {
                assignment: LAMP_SELECT_BOTH,
                position: if p == SELECTOR_BOTH {
                    1
                } else {
                    0
                },
            },
        );
    }
    assert(out@ =~= (out0 + door_out) + selector_out);
    if release_changed || panel_changed {
        let desired: u8 = if s.release_switch_notch == NOTCH_NEUTRAL {
            0
        } else {
            s.side_selector_panel
        };
        if (s.side_selector_hardware & 1) != (desired & 1) {
            out.push(
                Command::KeyPress {
                    assignment: ASSIGN_DOORS_INTERNAL,
                    command: CMD_DOORS_LEFT_DOWN,
                },
            );
        }
        if (s.side_selector_hardware & 2) != (desired & 2) {
            out.push(
                Command::KeyPress {
                    assignment: ASSIGN_DOORS_INTERNAL,
                    command: CMD_DOORS_RIGHT_DOWN,
                },
            );
        }
    }
    assert(out@ =~= ((out0 + door_out) + selector_out) + reconcile_out);
    assert(((out0 + door_out) + selector_out) + reconcile_out =~= out0 + (door_out + selector_out
        + reconcile_out));
    cur
}

/// The whole transition for one dequeued message: the new state and the
/// synthetic commands it produced, in order.
pub fn process_message(prev: Option<State>, msg: &Node) -> (res: (State, Vec<Command>))
    ensures
        res.0 == spec_process(prev, *msg).0,
        res.1@ == spec_process(prev, *msg).1,
        (prev matches Some(p) ==> p.wf()) ==> res.0.wf(),
{
    proof {
        if (match prev {
            Some(p) => p.wf(),
            None => true,
        }) {
            crate::laws::lemma_process_preserves_wf(prev, *msg);
        }
    }
    let s0 = match prev {
        None => State::initial(),
        Some(s) => s,
    };
    let mut out: Vec<Command> = Vec::new();
    let s1 = apply_inputs(s0, msg, &mut out);
    let ghost o1 = spec_apply_inputs(s0, *msg).1;
    let ghost o2 = spec_apply_reactive(prev, s1).1;
    let s2 = apply_reactive(prev, s1, &mut out);
    proof {
        assert(Seq::<Command>::empty() + o1 =~= o1);
        assert((Seq::<Command>::empty() + o1) + o2 =~= o1 + o2);
    }
    (s2, out)
}

/// One full translator cycle including output delivery policy: when the
/// cycle produced commands they are wrapped, in order, as the children of a
/// single outgoing batch message; otherwise nothing is to be sent.
pub fn step(prev: Option<State>, msg: &Node) -> (res: (State, Option<Node>))
    ensures
        res.0 == spec_process(prev, *msg).0,
        (prev matches Some(p) ==> p.wf()) ==> res.0.wf(),
        (res.1 is Some) <==> spec_process(prev, *msg).1.len() > 0,
        res.1 matches Some(batch) ==> {
            &&& batch.id == MSG_CLIENT_APPLICATION
            &&& batch.attributes@.len() == 0
            &&& batch.children@.len() == 1
            &&& batch.children@[0].id == NODE_INPUT_COMMAND
            &&& batch.children@[0].attributes@.len() == 0
            &&& batch.children@[0].children@.len() == spec_process(prev, *msg).1.len()
            &&& forall|i: int|
                #![auto]
                0 <= i < spec_process(prev, *msg).1.len() ==> node_renders_command(
                    batch.children@[0].children@[i],
                    spec_process(prev, *msg).1[i],
                )
        },
{
    let (s2, cmds) = process_message(prev, msg);
    if cmds.len() == 0 {
        (s2, None)
    } else {
        let nodes = render_commands(&cmds);
        (s2, Some(make_input_batch(nodes)))
    }
}

} // verus!
