//! Synthetic commands the translator sends back to the simulator, and the
//! builders that render them as message nodes.
//!
//! A command is either a keypress (an assignment channel and a command id) or
//! a request to move a switch to an absolute notch position.

use vstd::prelude::*;
use crate::msg::Attribute;
use crate::msg::Node;

verus! {

// Indicator lamps of the emulated panel (switch assignment channels).
pub const LAMP_DOOR_1_OPEN: u16 = 22;

pub const LAMP_DOOR_2_OPEN: u16 = 23;

pub const LAMP_DOOR_3_OPEN: u16 = 24;

pub const LAMP_DOOR_4_OPEN: u16 = 25;

pub const LAMP_GREEN_LOOP: u16 = 26;

pub const LAMP_PRAM: u16 = 27;

// Side-selector indicator lamps.
pub const LAMP_SELECT_LEFT: u16 = 31;

pub const LAMP_SELECT_RIGHT: u16 = 32;

pub const LAMP_SELECT_BOTH: u16 = 33;

// Toggle switches of the emulated panel.
pub const SWITCH_DOOR_RELEASE: u16 = 34;

pub const SWITCH_AUTO_ALL_CLOSE: u16 = 35;

// Keyboard assignment channels: the internal channel is driven only by the
// translator itself; the external channel mirrors the simulator's native
// human-operable door keys.
pub const ASSIGN_DOORS_INTERNAL: u16 = 36;

pub const ASSIGN_DOORS_EXTERNAL: u16 = 10;

// Keyboard command ids on the door channels. Each "up" command id is one
// higher than the corresponding "down" id.
pub const CMD_RELEASE_TOGGLE_DOWN: u16 = 59;

pub const CMD_DOORS_LEFT_DOWN: u16 = 61;

pub const CMD_DOORS_RIGHT_DOWN: u16 = 63;

pub const CMD_DOORS_CLOSE_DOWN: u16 = 65;

// Node and attribute ids of a keyboard-input command node.
pub const NODE_KEY_INPUT: u16 = 1;

pub const ATTR_KEY_ASSIGNMENT: u16 = 1;

pub const ATTR_KEY_COMMAND: u16 = 2;

pub const ATTR_KEY_ACTION: u16 = 3;

pub const ATTR_KEY_SWITCH_POSITION: u16 = 4;

/// Keyboard action "move to absolute notch".
pub const KEY_ACTION_ABSOLUTE_NOTCH: u16 = 7;

// Ids of the outgoing batch wrapper.
pub const MSG_CLIENT_APPLICATION: u16 = 2;

pub const NODE_INPUT_COMMAND: u16 = 0x010A;

/// One synthetic command to send back to the simulator.
#[derive(Clone, Copy, Debug, PartialEq, Eq, Structural)]
pub enum Command {
    /// Press (or release) a key on an assignment channel.
    KeyPress { assignment: u16, command: u16 },
    /// Move a switch on an assignment channel to an absolute notch position.
    SwitchNotch { assignment: u16, position: u16 },
}

/// The little-endian bytes of a 16-bit value.
pub open spec fn spec_u16_le(v: u16) -> Seq<u8> {
    seq![(v % 256) as u8, (v / 256) as u8]
}

/// The attribute `id` holds the 16-bit value `v`, little endian.
pub open spec fn attr_holds_u16(a: Attribute, id: u16, v: u16) -> bool {
    a.id == id && a.value@ == spec_u16_le(v)
}

/// `n` is a keypress input node for (`assignment`, `command`).
pub open spec fn is_key_press_node(n: Node, assignment: u16, command: u16) -> bool {
    &&& n.id == NODE_KEY_INPUT
    &&& n.children@.len() == 0
    &&& n.attributes@.len() == 2
    &&& attr_holds_u16(n.attributes@[0], ATTR_KEY_ASSIGNMENT, assignment)
    &&& attr_holds_u16(n.attributes@[1], ATTR_KEY_COMMAND, command)
}

/// `n` is a switch-to-absolute-notch input node for (`assignment`, `position`).
pub open spec fn is_switch_notch_node(n: Node, assignment: u16, position: u16) -> bool {
    &&& n.id == NODE_KEY_INPUT
    &&& n.children@.len() == 0
    &&& n.attributes@.len() == 3
    &&& attr_holds_u16(n.attributes@[0], ATTR_KEY_ASSIGNMENT, assignment)
    &&& attr_holds_u16(n.attributes@[1], ATTR_KEY_ACTION, KEY_ACTION_ABSOLUTE_NOTCH)
    &&& attr_holds_u16(n.attributes@[2], ATTR_KEY_SWITCH_POSITION, position)
}

/// `n` is the rendering of the command `c`.
pub open spec fn node_renders_command(n: Node, c: Command) -> bool {
    match c {
        Command::KeyPress { assignment, command } => is_key_press_node(n, assignment, command),
        Command::SwitchNotch { assignment, position } => is_switch_notch_node(
            n,
            assignment,
            position,
        ),
    }
}

/// An attribute holding a 16-bit value, little endian.
fn make_u16_attribute(id: u16, v: u16) -> (a: Attribute)
    ensures
        attr_holds_u16(a, id, v),
{
    let lo: u8 = (v % 256) as u8;
    let hi: u8 = (v / 256) as u8;
    let a = Attribute { id, value: vec![lo, hi] };
    assert(a.value@ =~= spec_u16_le(v));
    a
}

/// A keypress input node: press `command` on channel `assignment`.
pub fn make_command_input_node(assignment: u16, command: u16) -> (n: Node)
    ensures
        is_key_press_node(n, assignment, command),
{
    Node {
        id: NODE_KEY_INPUT,
        children: vec![],
        attributes: vec![
            make_u16_attribute(ATTR_KEY_ASSIGNMENT, assignment),
            make_u16_attribute(ATTR_KEY_COMMAND, command),
        ],
    }
}

/// A switch input node: move the switch on channel `assignment` to the
/// absolute notch `position`.
pub fn make_switch_input_node(assignment: u16, position: u16) -> (n: Node)
    ensures
        is_switch_notch_node(n, assignment, position),
{
    Node {
        id: NODE_KEY_INPUT,
        children: vec![],
        attributes: vec![
            make_u16_attribute(ATTR_KEY_ASSIGNMENT, assignment),
            make_u16_attribute(ATTR_KEY_ACTION, KEY_ACTION_ABSOLUTE_NOTCH),
            make_u16_attribute(ATTR_KEY_SWITCH_POSITION, position),
        ],
    }
}

/// Render one command as an input node.
pub fn render_command(c: &Command) -> (n: Node)
    ensures
        node_renders_command(n, *c),
{
    match c {
        Command::KeyPress { assignment, command } => make_command_input_node(
            *assignment,
            *command,
        ),
        Command::SwitchNotch { assignment, position } => make_switch_input_node(
            *assignment,
            *position,
        ),
    }
}

/// Render a batch of commands, in order, as input nodes.
pub fn render_commands(cmds: &Vec<Command>) -> (v: Vec<Node>)
    ensures
        v@.len() == cmds@.len(),
        forall|i: int| 0 <= i < cmds@.len() ==> node_renders_command(v@[i], cmds@[i]),
{
    let mut v: Vec<Node> = Vec::new();
    let mut i: usize = 0;
    let n = cmds.len();
    while i < n
        invariant
            i <= n,
            n == cmds@.len(),
            v@.len() == i,
            forall|j: int| 0 <= j < i ==> node_renders_command(v@[j], cmds@[j]),
        decreases n - i,
    {
        v.push(render_command(&cmds[i]));
        i = i + 1;
    }
    v
}

/// Wrap rendered input nodes as one outgoing batch message.
pub fn make_input_batch(inputs: Vec<Node>) -> (n: Node)
    ensures
        n.id == MSG_CLIENT_APPLICATION,
        n.attributes@.len() == 0,
        n.children@.len() == 1,
        n.children@[0].id == NODE_INPUT_COMMAND,
        n.children@[0].attributes@.len() == 0,
        n.children@[0].children@ == inputs@,
{
    Node {
        id: MSG_CLIENT_APPLICATION,
        attributes: vec![],
        children: vec![Node { id: NODE_INPUT_COMMAND, attributes: vec![], children: inputs }],
    }
}

} // verus!
